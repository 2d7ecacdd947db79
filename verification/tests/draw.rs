//! Drawing whole characters: the TrueType case end to end, composite
//! translation, metrics overrides, and the rejection paths.

use std::collections::HashMap;
use std::rc::Rc;

use font::glyph_data::{
    Arguments, Component, CompositeDescription, Description, GlyphData, RawGlyph,
    SimpleDescription, Transform,
};
use font::mapping::Mapping;
use font::metrics::Metrics;
use font::offset::Offset;
use font::truetype::TrueType;
use font::Error;

fn units(x: i32, y: i32) -> Offset {
    Offset::from_units(x, y)
}

fn rejection(result: Result<Option<font::Glyph>, Error>) -> Error {
    match result {
        Err(error) => error,
        Ok(_) => panic!("expected a rejection"),
    }
}

fn triangle() -> RawGlyph {
    RawGlyph {
        min_x: 0,
        min_y: 0,
        max_x: 10,
        max_y: 10,
        description: Description::Simple(SimpleDescription {
            end_points: vec![2],
            on_curve: vec![true, true, true],
            x: vec![0, 10, 0],
            y: vec![0, 0, 10],
        }),
    }
}

fn component(glyph_index: u16, dx: i32, dy: i32) -> Component {
    Component {
        glyph_index,
        arguments: Arguments::Offsets(dx, dy),
        transform: None,
        use_metrics: false,
    }
}

fn composite(components: Vec<Component>) -> RawGlyph {
    RawGlyph {
        min_x: 0,
        min_y: 0,
        max_x: 20,
        max_y: 20,
        description: Description::Composite(CompositeDescription { components }),
    }
}

fn metrics() -> Metrics {
    Metrics {
        records: vec![(500, 50), (600, 60)],
        left_side_bearings: vec![],
        clipping_ascender: 0,
        ascender: 0,
        cap_height: 0,
        x_height: 0,
        descender: 0,
        clipping_descender: 0,
        line_gap: 0,
    }
}

fn case(records: Vec<Option<RawGlyph>>, map: &[(char, u16)]) -> TrueType {
    let mut mapping = HashMap::new();
    for &(character, glyph_index) in map {
        mapping.insert(character as u32, glyph_index);
    }
    TrueType::new(
        Rc::new(GlyphData { records }),
        Rc::new(metrics()),
        Rc::new(Mapping(mapping)),
    )
}

#[test]
fn unmapped_character_is_absent() {
    let case = case(vec![Some(triangle())], &[('a', 0)]);
    assert!(matches!(case.draw('z'), Ok(None)));
}

#[test]
fn draws_simple_glyph_with_metrics() {
    let case = case(vec![Some(triangle())], &[('a', 0)]);
    let glyph = case.draw('a').unwrap().unwrap();
    assert_eq!(glyph.contours.len(), 1);
    assert_eq!(glyph.contours[0].segments.len(), 3);
    // Metrics arrive in half units: advance 500, left side bearing 50.
    assert_eq!(glyph.advance_width, 1000);
    assert_eq!(glyph.side_bearings.0, 100);
    // right side bearing = advance - (left side bearing + width)
    assert_eq!(glyph.bounding_box, (0, 0, 20, 20));
    assert_eq!(glyph.side_bearings.1, 1000 - (100 + 20));
}

#[test]
fn empty_slot_gives_empty_glyph() {
    let case = case(vec![Some(triangle()), None], &[('s', 1)]);
    let glyph = case.draw('s').unwrap().unwrap();
    assert_eq!(glyph.contours.len(), 0);
    assert_eq!(glyph.bounding_box, (0, 0, 0, 0));
    assert_eq!(glyph.advance_width, 1200);
    assert_eq!(glyph.side_bearings, (120, 1200 - 120));
}

#[test]
fn index_past_table_is_malformed() {
    // One glyph past the valid range: a rejection, not a default glyph.
    let case = case(vec![Some(triangle())], &[('b', 1)]);
    assert_eq!(rejection(case.draw('b')), Error::MalformedGlyph);
}

#[test]
fn composite_translates_both_components() {
    let case = case(
        vec![
            Some(triangle()),
            Some(composite(vec![component(0, 100, 0), component(0, 0, 50)])),
        ],
        &[('a', 0), ('b', 1)],
    );
    let base = case.draw('a').unwrap().unwrap();
    let glyph = case.draw('b').unwrap().unwrap();
    assert_eq!(glyph.contours.len(), 2);
    // Two copies of the referenced glyph's segments, untouched by the
    // translation, at positions moved by the respective offsets.
    assert_eq!(glyph.contours[0].segments, base.contours[0].segments);
    assert_eq!(glyph.contours[1].segments, base.contours[0].segments);
    assert_eq!(glyph.contours[0].position, units(100, 0));
    assert_eq!(glyph.contours[1].position, units(0, 50));
    // The composite's own metrics stand: no component asked to override.
    assert_eq!(glyph.advance_width, 1200);
    assert_eq!(glyph.side_bearings.0, 120);
}

#[test]
fn composite_metrics_override() {
    let mut with_metrics = component(0, 0, 0);
    with_metrics.use_metrics = true;
    let case = case(
        vec![Some(triangle()), Some(composite(vec![with_metrics]))],
        &[('b', 1)],
    );
    let glyph = case.draw('b').unwrap().unwrap();
    // The component adopts glyph 0's metrics in place of the composite's.
    assert_eq!(glyph.advance_width, 1000);
    assert_eq!(glyph.side_bearings.0, 100);
}

#[test]
fn composite_skips_empty_component() {
    let case = case(
        vec![Some(triangle()), Some(composite(vec![component(2, 5, 5), component(0, 0, 0)])), None],
        &[('b', 1)],
    );
    let glyph = case.draw('b').unwrap().unwrap();
    assert_eq!(glyph.contours.len(), 1);
}

#[test]
fn composite_rejects_point_attachment() {
    let mut bad = component(0, 0, 0);
    bad.arguments = Arguments::Indices(1, 2);
    let case = case(vec![Some(triangle()), Some(composite(vec![bad]))], &[('b', 1)]);
    assert_eq!(rejection(case.draw('b')), Error::UnsupportedFeature);
}

#[test]
fn composite_rejects_transform() {
    let mut bad = component(0, 0, 0);
    bad.transform = Some(Transform::Scalar);
    let case = case(vec![Some(triangle()), Some(composite(vec![bad]))], &[('b', 1)]);
    assert_eq!(rejection(case.draw('b')), Error::UnsupportedFeature);
}

#[test]
fn composite_rejects_dangling_reference() {
    let case = case(vec![Some(triangle()), Some(composite(vec![component(7, 0, 0)]))], &[('b', 1)]);
    assert_eq!(rejection(case.draw('b')), Error::MalformedGlyph);
}

#[test]
fn composite_cycle_is_malformed() {
    // A glyph that references itself would recurse forever; the nesting
    // bound rejects it as malformed.
    let case = case(vec![Some(composite(vec![component(0, 1, 1)]))], &[('b', 0)]);
    assert_eq!(rejection(case.draw('b')), Error::MalformedGlyph);
}
