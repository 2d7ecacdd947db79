//! Font assembly, metrics lookup, and the builder's own behavior.

use std::collections::HashMap;
use std::rc::Rc;

use opentype::truetype::tables::font_header::{Flags, FontHeader};

use font::builder::Builder;
use font::glyph::Segment;
use font::glyph_data::{Description, GlyphData, RawGlyph, SimpleDescription};
use font::mapping::Mapping;
use font::metrics::Metrics;
use font::offset::Offset;
use font::truetype::TrueType;
use font::{new_font, Case};

fn units(x: i32, y: i32) -> Offset {
    Offset::from_units(x, y)
}

fn bare_metrics(records: Vec<(u16, i16)>, left_side_bearings: Vec<i16>) -> Metrics {
    Metrics {
        records,
        left_side_bearings,
        clipping_ascender: 2000,
        ascender: 1900,
        cap_height: 1400,
        x_height: 1000,
        descender: -500,
        clipping_descender: -600,
        line_gap: 200,
    }
}

fn empty_case() -> Case {
    Case::TrueType(TrueType::new(
        Rc::new(GlyphData { records: vec![] }),
        Rc::new(bare_metrics(vec![], vec![])),
        Rc::new(Mapping(HashMap::new())),
    ))
}

#[test]
fn font_from_header_and_metrics() {
    let header = FontHeader {
        units_per_em: 1000,
        flags: Flags(0b1),
        ..Default::default()
    };
    let metrics = bare_metrics(vec![], vec![]);
    let font = new_font(&header, &metrics, empty_case());
    // Half units: 1000 units per em arrive as 2000.
    assert_eq!(font.units_per_em, 2000);
    assert_eq!(font.baseline, Some(0));
    assert_eq!(font.ascender, 1900);
    assert_eq!(font.descender, -500);
    assert_eq!(font.line_gap, 200);
}

#[test]
fn font_without_guaranteed_baseline() {
    let header = FontHeader {
        units_per_em: 2048,
        flags: Flags(0),
        ..Default::default()
    };
    let metrics = bare_metrics(vec![], vec![]);
    let font = new_font(&header, &metrics, empty_case());
    assert_eq!(font.units_per_em, 4096);
    assert_eq!(font.baseline, None);
}

#[test]
fn font_draw_delegates_to_case() {
    let header = FontHeader::default();
    let metrics = bare_metrics(vec![], vec![]);
    let font = new_font(&header, &metrics, empty_case());
    assert!(matches!(font.draw('a'), Ok(None)));
}

#[test]
fn metrics_lookup_follows_the_table_layout() {
    let metrics = bare_metrics(vec![(500, 50), (640, -3)], vec![7, 8]);
    // In range: the record itself, doubled into half units.
    assert_eq!(metrics.get(0), (1000, 100));
    assert_eq!(metrics.get(1), (1280, -6));
    // Past the records: the last advance with the bare bearings.
    assert_eq!(metrics.get(2), (1280, 14));
    assert_eq!(metrics.get(3), (1280, 16));
    // Past everything: the nearest stored values.
    assert_eq!(metrics.get(9), (1280, 16));
}

#[test]
fn metrics_lookup_without_bearing_run() {
    let metrics = bare_metrics(vec![(500, 50)], vec![]);
    assert_eq!(metrics.get(4), (1000, 100));
    let empty = bare_metrics(vec![], vec![]);
    assert_eq!(empty.get(0), (0, 0));
}

#[test]
fn builder_derives_right_side_bearing() {
    let mut builder = Builder::new();
    builder.set_horizontal_metrics((2000, 200));
    builder.set_bounding_box(0, 0, 1000, 1000);
    let glyph = builder.into_glyph();
    assert_eq!(glyph.side_bearings, (200, 2000 - (200 + 1000)));
}

#[test]
fn builder_derives_right_side_bearing_for_degenerate_box() {
    let mut builder = Builder::new();
    builder.set_horizontal_metrics((600, 40));
    builder.set_bounding_box(250, 0, 250, 0);
    let glyph = builder.into_glyph();
    assert_eq!(glyph.side_bearings, (40, 560));
}

#[test]
fn builder_discards_empty_contour_on_flush() {
    let mut builder = Builder::new();
    builder.move_absolute(units(5, 5));
    builder.flush();
    builder.move_absolute(units(0, 0));
    builder.add_linear(units(10, 0));
    builder.add_cubic(units(1, 1), units(2, 2), units(-13, -1));
    builder.add_quadratic(units(2, 0), units(3, 1));
    builder.flush();
    let glyph = builder.into_glyph();
    assert_eq!(glyph.contours.len(), 1);
    assert_eq!(
        glyph.contours[0].segments,
        vec![
            Segment::Linear(units(10, 0)),
            Segment::Cubic(units(1, 1), units(2, 2), units(-13, -1)),
            Segment::Quadratic(units(2, 0), units(3, 1)),
        ],
    );
    assert_eq!(glyph.contours[0].net, units(0, 0));
}

#[test]
fn builder_moves_accumulate() {
    let mut builder = Builder::new();
    builder.move_absolute(units(10, 0));
    builder.move_relative(units(0, 5));
    builder.add_linear(units(1, 1));
    builder.flush();
    let glyph = builder.into_glyph();
    assert_eq!(glyph.contours[0].position, units(10, 5));
    assert_eq!(glyph.contours[0].offset, units(10, 5));
}

#[test]
fn builder_frames_translate_positions() {
    let mut builder = Builder::new();
    builder.push_frame(units(100, -100));
    builder.move_absolute(units(1, 2));
    builder.add_linear(units(5, 0));
    builder.flush();
    builder.pop_frame(units(100, -100));
    builder.move_absolute(units(1, 2));
    builder.add_linear(units(5, 0));
    builder.flush();
    let glyph = builder.into_glyph();
    assert_eq!(glyph.contours[0].position, units(101, -98));
    assert_eq!(glyph.contours[1].position, units(1, 2));
    // The second contour's starting offset is the delta from the first.
    assert_eq!(glyph.contours[1].offset, units(-100, 100));
}

#[test]
fn font_draws_through_its_case() {
    let triangle = RawGlyph {
        min_x: 0,
        min_y: 0,
        max_x: 10,
        max_y: 10,
        description: Description::Simple(SimpleDescription {
            end_points: vec![2],
            on_curve: vec![true, true, true],
            x: vec![0, 10, 0],
            y: vec![0, 0, 10],
        }),
    };
    let mut map = HashMap::new();
    map.insert('a' as u32, 0u16);
    let case = Case::TrueType(TrueType::new(
        Rc::new(GlyphData { records: vec![Some(triangle)] }),
        Rc::new(bare_metrics(vec![(500, 50)], vec![])),
        Rc::new(Mapping(map)),
    ));
    let font = new_font(&FontHeader::default(), &bare_metrics(vec![], vec![]), case);
    let glyph = font.draw('a').unwrap().unwrap();
    assert_eq!(glyph.contours.len(), 1);
    assert_eq!(glyph.advance_width, 1000);
}
