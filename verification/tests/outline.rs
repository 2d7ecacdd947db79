//! The simple-outline decoder on concrete contours: the documented
//! scenarios, the four closing cases, elision, and rejection.

use font::builder::Builder;
use font::glyph::Segment;
use font::glyph_data::SimpleDescription;
use font::offset::Offset;
use font::truetype::draw_simple;
use font::Error;

fn simple(end_points: Vec<u16>, on_curve: Vec<bool>, x: Vec<i32>, y: Vec<i32>) -> SimpleDescription {
    SimpleDescription { end_points, on_curve, x, y }
}

fn units(x: i32, y: i32) -> Offset {
    Offset::from_units(x, y)
}

fn net(segments: &[Segment]) -> Offset {
    let mut sum = units(0, 0);
    for segment in segments {
        let end = match segment {
            Segment::Linear(a) => *a,
            Segment::Quadratic(_, b) => *b,
            Segment::Cubic(_, _, c) => *c,
        };
        sum = sum.plus(end);
    }
    sum
}

#[test]
fn simple_triangle() {
    let description = simple(vec![2], vec![true, true, true], vec![0, 10, 0], vec![0, 0, 10]);
    let mut builder = Builder::new();
    assert!(draw_simple(&mut builder, &description).is_ok());
    let glyph = builder.into_glyph();
    assert_eq!(glyph.contours.len(), 1);
    let segments = &glyph.contours[0].segments;
    assert_eq!(
        segments,
        &vec![
            Segment::Linear(units(10, 0)),
            Segment::Linear(units(-10, 10)),
            Segment::Linear(units(0, -10)),
        ],
    );
    assert_eq!(net(segments), units(0, 0));
    assert_eq!(glyph.contours[0].net, units(0, 0));
}

#[test]
fn single_off_curve_control() {
    let description = simple(vec![2], vec![true, false, true], vec![0, 5, 10], vec![0, 5, 0]);
    let mut builder = Builder::new();
    assert!(draw_simple(&mut builder, &description).is_ok());
    let glyph = builder.into_glyph();
    assert_eq!(glyph.contours.len(), 1);
    let segments = &glyph.contours[0].segments;
    assert_eq!(
        segments,
        &vec![
            Segment::Quadratic(units(5, 5), units(10, 0)),
            Segment::Linear(units(-10, 0)),
        ],
    );
    assert_eq!(net(segments), units(0, 0));
}

#[test]
fn implied_midpoint() {
    let description = simple(
        vec![3],
        vec![true, false, false, true],
        vec![0, 4, 8, 10],
        vec![0, 4, 0, 0],
    );
    let mut builder = Builder::new();
    assert!(draw_simple(&mut builder, &description).is_ok());
    let glyph = builder.into_glyph();
    let segments = &glyph.contours[0].segments;
    // The two consecutive off-curve points imply an on-curve midpoint at
    // (6, 2): the first emitted curve ends exactly there.
    assert_eq!(segments[0], Segment::Quadratic(units(4, 4), units(6, 2)));
    assert_eq!(segments[1], Segment::Quadratic(units(2, -2), units(4, -2)));
    assert_eq!(segments[2], Segment::Linear(units(-10, 0)));
    assert_eq!(segments.len(), 3);
    assert_eq!(net(segments), units(0, 0));
}

#[test]
fn closes_with_pending_control() {
    let description = simple(vec![2], vec![true, true, false], vec![0, 10, 5], vec![0, 0, 5]);
    let mut builder = Builder::new();
    assert!(draw_simple(&mut builder, &description).is_ok());
    let glyph = builder.into_glyph();
    let segments = &glyph.contours[0].segments;
    assert_eq!(
        segments,
        &vec![
            Segment::Linear(units(10, 0)),
            Segment::Quadratic(units(-5, 5), units(-10, 0)),
        ],
    );
    assert_eq!(net(segments), units(0, 0));
}

#[test]
fn closes_from_off_curve_start() {
    let description = simple(vec![1], vec![false, true], vec![5, 10], vec![5, 0]);
    let mut builder = Builder::new();
    assert!(draw_simple(&mut builder, &description).is_ok());
    let glyph = builder.into_glyph();
    let segments = &glyph.contours[0].segments;
    assert_eq!(
        segments,
        &vec![
            Segment::Quadratic(units(0, 0), units(5, -5)),
            Segment::Quadratic(units(-5, 5), units(-5, 5)),
        ],
    );
    assert_eq!(net(segments), units(0, 0));
}

#[test]
fn closes_from_off_curve_start_with_pending_control() {
    let description = simple(vec![1], vec![false, false], vec![4, 0], vec![0, 4]);
    let mut builder = Builder::new();
    assert!(draw_simple(&mut builder, &description).is_ok());
    let glyph = builder.into_glyph();
    let segments = &glyph.contours[0].segments;
    assert_eq!(
        segments,
        &vec![
            Segment::Quadratic(units(0, 0), units(-2, 2)),
            Segment::Quadratic(units(-2, 2), units(0, 0)),
            Segment::Quadratic(units(2, -2), units(2, -2)),
        ],
    );
    assert_eq!(net(segments), units(0, 0));
}

#[test]
fn empty_contour_elided() {
    // A contour of one on-curve point draws nothing and never reaches the
    // glyph; the contour after it still does.
    let description = simple(
        vec![0, 3],
        vec![true, true, true, true],
        vec![5, 0, 10, 0],
        vec![5, 0, 0, 10],
    );
    let mut builder = Builder::new();
    assert!(draw_simple(&mut builder, &description).is_ok());
    let glyph = builder.into_glyph();
    assert_eq!(glyph.contours.len(), 1);
    assert_eq!(glyph.contours[0].segments.len(), 3);
}

#[test]
fn repeated_point_contour_elided() {
    let description = simple(vec![1], vec![true, true], vec![3, 3], vec![3, 3]);
    let mut builder = Builder::new();
    assert!(draw_simple(&mut builder, &description).is_ok());
    let glyph = builder.into_glyph();
    assert_eq!(glyph.contours.len(), 0);
}

#[test]
fn rejects_empty_point_array() {
    let description = simple(vec![], vec![], vec![], vec![]);
    let mut builder = Builder::new();
    assert_eq!(draw_simple(&mut builder, &description), Err(Error::MalformedGlyph));
}

#[test]
fn rejects_mismatched_arrays() {
    let description = simple(vec![1], vec![true, true], vec![0, 1], vec![0]);
    let mut builder = Builder::new();
    assert_eq!(draw_simple(&mut builder, &description), Err(Error::MalformedGlyph));
}

#[test]
fn rejects_unordered_boundaries() {
    let description = simple(
        vec![2, 1],
        vec![true, true, true],
        vec![0, 10, 0],
        vec![0, 0, 10],
    );
    let mut builder = Builder::new();
    assert_eq!(draw_simple(&mut builder, &description), Err(Error::MalformedGlyph));
}

#[test]
fn rejects_boundary_out_of_range() {
    let description = simple(vec![5], vec![true, true, true], vec![0, 10, 0], vec![0, 0, 10]);
    let mut builder = Builder::new();
    assert_eq!(draw_simple(&mut builder, &description), Err(Error::MalformedGlyph));
}

#[test]
fn second_contour_is_anchored_to_the_first() {
    // Two triangles; the second contour's starting offset is the delta from
    // the first contour's starting position.
    let description = simple(
        vec![2, 5],
        vec![true, true, true, true, true, true],
        vec![0, 10, 0, 100, 110, 100],
        vec![0, 0, 10, 0, 0, 10],
    );
    let mut builder = Builder::new();
    assert!(draw_simple(&mut builder, &description).is_ok());
    let glyph = builder.into_glyph();
    assert_eq!(glyph.contours.len(), 2);
    assert_eq!(glyph.contours[0].position, units(0, 0));
    assert_eq!(glyph.contours[0].offset, units(0, 0));
    assert_eq!(glyph.contours[1].position, units(100, 0));
    assert_eq!(glyph.contours[1].offset, units(100, 0));
    assert_eq!(net(&glyph.contours[1].segments), units(0, 0));
}

#[test]
fn resolves_deltas_to_absolute_coordinates() {
    let absolute = font::glyph_data::absolute_coordinates(&vec![5, -3, 0, 10]);
    assert_eq!(absolute, vec![5, 2, 2, 12]);
}
