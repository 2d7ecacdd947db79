//! The TrueType drawing case: executable decoders for simple and composite
//! glyph descriptions, each proved to return exactly what the model in
//! [`crate::outline`] describes.

use vstd::prelude::*;

use std::rc::Rc;

use crate::builder::Builder;
use crate::glyph::{ContourView, Glyph, GlyphView, SegmentView};
use crate::glyph_data::{Arguments, CompositeDescription, Description, GlyphData, RawGlyph,
    SimpleDescription};
use crate::mapping::Mapping;
use crate::metrics::{metrics_get, Metrics};
use crate::offset::{Offset, OffsetView, FRAME_LIMIT, POINT_LIMIT};
use crate::outline::{close_contour, contour_end, contour_record_at, contour_start,
    decode_components, decode_glyph, lemma_decode_closed, lemma_net_push, lemma_walk_net,
    simple_contours, simple_valid, walk, DecodeView, MAX_COMPONENT_DEPTH};
use crate::Error;

verus! {

/// The TrueType glyph source: shared, read-only glyph data, metrics, and
/// character mapping, one set per font.
pub struct TrueType {
    pub glyph_data: Rc<GlyphData>,
    pub metrics: Rc<Metrics>,
    pub mapping: Rc<Mapping>,
}

impl TrueType {
    /// Bundles the shared tables into a drawing case.
    pub fn new(glyph_data: Rc<GlyphData>, metrics: Rc<Metrics>, mapping: Rc<Mapping>) -> (r:
        TrueType)
        ensures
            r.glyph_data == glyph_data,
            r.metrics == metrics,
            r.mapping == mapping,
    {
        TrueType { glyph_data, metrics, mapping }
    }
}

/// The walk's pending control point, kept in whole font units.
pub open spec fn pending_view(p: Option<(i32, i32)>) -> Option<OffsetView> {
    match p {
        Some(q) => Some(OffsetView { x: 2 * q.0, y: 2 * q.1 }),
        None => None,
    }
}

/// Decodes the contour over points `i ..= k` and records it on the builder,
/// exactly as [`contour_record_at`] describes: walk the points, close the
/// path, anchor the contour at its starting position, and keep it only if it
/// drew anything.
fn draw_contour(builder: &mut Builder, d: &SimpleDescription, i: usize, k: usize)
    requires
        old(builder).wf(),
        old(builder).contour@.segments == Seq::<SegmentView>::empty(),
        old(builder).contour@.net == OffsetView::zero(),
        d.x@.len() == d.on_curve@.len(),
        d.y@.len() == d.on_curve@.len(),
        i <= k < d.on_curve@.len(),
        k < 0x10000,
    ensures
        final(builder).wf(),
        final(builder).offset == old(builder).offset,
        final(builder).contour@.segments == Seq::<SegmentView>::empty(),
        final(builder).contour@.net == OffsetView::zero(),
        final(builder).glyph@.bounding_box == old(builder).glyph@.bounding_box,
        final(builder).glyph@.advance_width == old(builder).glyph@.advance_width,
        final(builder).glyph@.side_bearings == old(builder).glyph@.side_bearings,
        contour_record_at(
            *d,
            i as int,
            k as int,
            old(builder).offset@,
            old(builder).glyph@.last_position(),
        ) is None ==> final(builder).glyph@.contours == old(builder).glyph@.contours,
        contour_record_at(
            *d,
            i as int,
            k as int,
            old(builder).offset@,
            old(builder).glyph@.last_position(),
        ) matches Some(cv) ==> final(builder).glyph@.contours == old(
            builder,
        ).glyph@.contours.push(cv),
{
    let start = (d.x[i], d.y[i]);
    let start_point = Offset::from_units(start.0, start.1);
    let first_on = d.on_curve[i];
    let mut cursor = start_point;
    let mut pending: Option<(i32, i32)> = if first_on {
        None
    } else {
        Some(start)
    };
    let mut j = i + 1;
    while j <= k
        invariant
            builder.wf(),
            i < j <= k + 1,
            k < d.on_curve@.len(),
            k < 0x10000,
            d.x@.len() == d.on_curve@.len(),
            d.y@.len() == d.on_curve@.len(),
            cursor@ == walk(*d, i as int, j - 1).cursor,
            pending_view(pending) == walk(*d, i as int, j - 1).pending,
            builder.contour@.segments == walk(*d, i as int, j - 1).segments,
            builder.contour@.net == crate::glyph::net_of(walk(*d, i as int, j - 1).segments),
            cursor@.bounded(POINT_LIMIT as int),
            builder.offset == old(builder).offset,
            builder.glyph == old(builder).glyph,
            builder.contour@.position == old(builder).contour@.position,
            builder.contour@.offset == old(builder).contour@.offset,
        decreases k + 1 - j,
    {
        let p = (d.x[j], d.y[j]);
        let current = Offset::from_units(p.0, p.1);
        proof {
            lemma_walk_net(*d, i as int, j - 1);
            lemma_walk_cursor_bounded(*d, i as int, j - 1);
        }
        if d.on_curve[j] {
            match pending {
                Some(q) => {
                    let qo = Offset::from_units(q.0, q.1);
                    proof {
                        lemma_net_push(
                            walk(*d, i as int, j - 1).segments,
                            SegmentView::Quadratic(qo@.minus(cursor@), current@.minus(cursor@)),
                        );
                    }
                    builder.add_quadratic(qo.minus(cursor), current.minus(cursor));
                    pending = None;
                    cursor = current;
                },
                None => {
                    if current != cursor {
                        proof {
                            lemma_net_push(
                                walk(*d, i as int, j - 1).segments,
                                SegmentView::Linear(current@.minus(cursor@)),
                            );
                        }
                        builder.add_linear(current.minus(cursor));
                        cursor = current;
                    }
                },
            }
        } else {
            match pending {
                Some(q) => {
                    let qo = Offset::from_units(q.0, q.1);
                    let mid = Offset::midpoint_of_units(q, p);
                    proof {
                        lemma_net_push(
                            walk(*d, i as int, j - 1).segments,
                            SegmentView::Quadratic(qo@.minus(cursor@), mid@.minus(cursor@)),
                        );
                    }
                    builder.add_quadratic(qo.minus(cursor), mid.minus(cursor));
                    cursor = mid;
                    pending = Some(p);
                },
                None => {
                    pending = Some(p);
                },
            }
        }
        j = j + 1;
    }
    proof {
        lemma_walk_net(*d, i as int, k as int);
        lemma_walk_cursor_bounded(*d, i as int, k as int);
    }
    if first_on {
        match pending {
            None => {
                if cursor != start_point {
                    proof {
                        lemma_net_push(
                            walk(*d, i as int, k as int).segments,
                            SegmentView::Linear(start_point@.minus(cursor@)),
                        );
                    }
                    builder.add_linear(start_point.minus(cursor));
                }
            },
            Some(q) => {
                let qo = Offset::from_units(q.0, q.1);
                proof {
                    lemma_net_push(
                        walk(*d, i as int, k as int).segments,
                        SegmentView::Quadratic(qo@.minus(cursor@), start_point@.minus(cursor@)),
                    );
                }
                builder.add_quadratic(qo.minus(cursor), start_point.minus(cursor));
            },
        }
    } else {
        match pending {
            None => {
                let e = start_point.minus(cursor);
                proof {
                    lemma_net_push(
                        walk(*d, i as int, k as int).segments,
                        SegmentView::Quadratic(
                            start_point@.minus(cursor@),
                            start_point@.minus(cursor@),
                        ),
                    );
                }
                builder.add_quadratic(e, e);
            },
            Some(q) => {
                let qo = Offset::from_units(q.0, q.1);
                let mid = Offset::midpoint_of_units(q, start);
                proof {
                    lemma_net_push(
                        walk(*d, i as int, k as int).segments,
                        SegmentView::Quadratic(qo@.minus(cursor@), mid@.minus(cursor@)),
                    );
                    lemma_net_push(
                        walk(*d, i as int, k as int).segments.push(
                            SegmentView::Quadratic(qo@.minus(cursor@), mid@.minus(cursor@)),
                        ),
                        SegmentView::Quadratic(
                            start_point@.minus(mid@),
                            start_point@.minus(mid@),
                        ),
                    );
                }
                builder.add_quadratic(qo.minus(cursor), mid.minus(cursor));
                builder.add_quadratic(start_point.minus(mid), start_point.minus(mid));
            },
        }
    }
    proof {
        assert(builder.contour@.segments == close_contour(*d, i as int, k as int));
    }
    builder.move_absolute(start_point);
    builder.flush();
}

/// The pen never leaves the points' range: the cursor is always an input
/// point or a midpoint of two, and points from 32-bit units are bounded.
proof fn lemma_walk_cursor_bounded(d: SimpleDescription, i: int, j: int)
    requires
        i <= j,
    ensures
        walk(d, i, j).cursor.bounded(POINT_LIMIT as int),
        walk(d, i, j).pending matches Some(q) ==> q.bounded(POINT_LIMIT as int),
    decreases j - i,
{
    if j <= i {
    } else {
        lemma_walk_cursor_bounded(d, i, j - 1);
    }
}

/// Decodes a whole simple-glyph description, one contour per boundary index,
/// rejecting it if it violates the structural preconditions: no points,
/// mismatched array lengths, or boundaries out of order or range.
pub fn draw_simple(builder: &mut Builder, description: &SimpleDescription) -> (r: Result<
    (),
    Error,
>)
    requires
        old(builder).wf(),
        old(builder).contour@.segments == Seq::<SegmentView>::empty(),
        old(builder).contour@.net == OffsetView::zero(),
    ensures
        final(builder).wf(),
        final(builder).offset == old(builder).offset,
        final(builder).contour@.segments == Seq::<SegmentView>::empty(),
        final(builder).contour@.net == OffsetView::zero(),
        final(builder).glyph@.bounding_box == old(builder).glyph@.bounding_box,
        final(builder).glyph@.advance_width == old(builder).glyph@.advance_width,
        final(builder).glyph@.side_bearings == old(builder).glyph@.side_bearings,
        r is Ok <==> simple_valid(*description),
        r matches Err(e) ==> e == Error::MalformedGlyph,
        r is Ok ==> final(builder).glyph@.contours == old(builder).glyph@.contours
            + simple_contours(
            *description,
            old(builder).offset@,
            old(builder).glyph@.last_position(),
            0,
        ),
{
    let point_count = description.on_curve.len();
    if point_count == 0 {
        return Err(Error::MalformedGlyph);
    }
    if description.x.len() != point_count {
        return Err(Error::MalformedGlyph);
    }
    if description.y.len() != point_count {
        return Err(Error::MalformedGlyph);
    }
    let ghost frame = old(builder).offset@;
    let ghost last0 = old(builder).glyph@.last_position();
    let mut i: usize = 0;
    let mut c: usize = 0;
    while c < description.end_points.len()
        invariant
            builder.wf(),
            point_count == description.on_curve@.len(),
            description.x@.len() == point_count,
            description.y@.len() == point_count,
            point_count > 0,
            c <= description.end_points@.len(),
            i == contour_start(*description, c as int),
            i <= 0x10000,
            forall|cc: int|
                0 <= cc < c ==> contour_start(*description, cc) <= #[trigger] contour_end(
                    *description,
                    cc,
                ) < point_count,
            builder.offset == old(builder).offset,
            frame == builder.offset@,
            builder.contour@.segments == Seq::<SegmentView>::empty(),
            builder.contour@.net == OffsetView::zero(),
            builder.glyph@.bounding_box == old(builder).glyph@.bounding_box,
            builder.glyph@.advance_width == old(builder).glyph@.advance_width,
            builder.glyph@.side_bearings == old(builder).glyph@.side_bearings,
            old(builder).glyph@.contours + simple_contours(*description, frame, last0, 0)
                == builder.glyph@.contours + simple_contours(
                *description,
                frame,
                builder.glyph@.last_position(),
                c as int,
            ),
        decreases description.end_points@.len() - c,
    {
        let k = description.end_points[c] as usize;
        if !(i <= k && k < point_count) {
            return Err(Error::MalformedGlyph);
        }
        let ghost prev_contours = builder.glyph@.contours;
        let ghost prev = builder.glyph@.last_position();
        draw_contour(builder, description, i, k);
        proof {
            let d = *description;
            let suffix = simple_contours(d, frame, prev, c as int);
            match contour_record_at(d, i as int, k as int, frame, prev) {
                None => {
                    assert(suffix == simple_contours(d, frame, prev, c + 1));
                    assert(builder.glyph@.last_position() == prev);
                },
                Some(cv) => {
                    assert(suffix == seq![cv] + simple_contours(d, frame, cv.position, c + 1));
                    assert(builder.glyph@.contours == prev_contours.push(cv));
                    assert(builder.glyph@.last_position() == cv.position);
                    assert(prev_contours + (seq![cv] + simple_contours(
                        d,
                        frame,
                        cv.position,
                        c + 1,
                    )) =~= prev_contours.push(cv) + simple_contours(d, frame, cv.position, c + 1));
                },
            }
        }
        i = k + 1;
        c = c + 1;
    }
    proof {
        let d = *description;
        assert(simple_contours(d, frame, builder.glyph@.last_position(), c as int)
            == Seq::<ContourView>::empty());
        assert(builder.glyph@.contours + Seq::<ContourView>::empty()
            =~= builder.glyph@.contours);
    }
    Ok(())
}

/// How large the nested-frame offset may still be when `fuel` composite
/// nesting levels remain: each remaining level may add one component offset.
pub open spec fn frame_budget(fuel: int) -> int {
    FRAME_LIMIT - fuel * POINT_LIMIT
}

/// Whether the glyph's horizontal metrics reflect the given adopted
/// override: unchanged when none was adopted, else the adopted values, with
/// the right side bearing left alone in either case.
pub open spec fn metrics_applied(
    now: GlyphView,
    before: GlyphView,
    adopted: Option<(int, int)>,
) -> bool {
    match adopted {
        None => now.advance_width == before.advance_width && now.side_bearings
            == before.side_bearings,
        Some(o) => now.advance_width == o.0 && now.side_bearings == (o.1, before.side_bearings.1),
    }
}

/// The model's outcome for one raw glyph of this case's tables.
pub open spec fn glyph_outcome(
    case: &TrueType,
    raw: RawGlyph,
    frame: OffsetView,
    prev: OffsetView,
    fuel: nat,
) -> Result<DecodeView, Error> {
    decode_glyph(*case.glyph_data, *case.metrics, raw, frame, prev, fuel)
}

/// The model's outcome for a composite's components of this case's tables.
pub open spec fn components_outcome(
    case: &TrueType,
    d: CompositeDescription,
    idx: int,
    frame: OffsetView,
    prev: OffsetView,
    adopted: Option<(int, int)>,
    fuel: nat,
) -> Result<DecodeView, Error> {
    decode_components(*case.glyph_data, *case.metrics, d, idx, frame, prev, adopted, fuel)
}

impl TrueType {
    /// Decodes one raw glyph into the builder, exactly as
    /// [`crate::outline::decode_glyph`] describes.
    fn draw_glyph(&self, builder: &mut Builder, glyph: &RawGlyph, fuel: u32) -> (r: Result<
        (),
        Error,
    >)
        requires
            old(builder).wf(),
            old(builder).contour@.segments == Seq::<SegmentView>::empty(),
            old(builder).contour@.net == OffsetView::zero(),
            fuel <= MAX_COMPONENT_DEPTH,
            old(builder).offset@.bounded(frame_budget(fuel as int)),
        ensures
            final(builder).wf(),
            final(builder).offset == old(builder).offset,
            final(builder).contour@.segments == Seq::<SegmentView>::empty(),
            final(builder).contour@.net == OffsetView::zero(),
            final(builder).glyph@.bounding_box == old(builder).glyph@.bounding_box,
            ({
                let outcome = glyph_outcome(
                    self,
                    *glyph,
                    old(builder).offset@,
                    old(builder).glyph@.last_position(),
                    fuel as nat,
                );
                match outcome {
                    Ok(dv) => r is Ok && final(builder).glyph@.contours == old(
                        builder,
                    ).glyph@.contours + dv.contours && metrics_applied(
                        final(builder).glyph@,
                        old(builder).glyph@,
                        dv.metrics_override,
                    ),
                    Err(e) => r matches Err(e2) && e2 == e,
                }
            }),
        decreases fuel, 1int,
    {
        match &glyph.description {
            Description::Simple(d) => draw_simple(builder, d),
            Description::Composite(d) => {
                if fuel == 0 {
                    return Err(Error::MalformedGlyph);
                }
                self.draw_composite(builder, d, fuel)
            },
        }
    }

    /// Decodes a composite description component by component, exactly as
    /// [`crate::outline::decode_components`] describes: translations only,
    /// empty referenced glyphs skipped, metrics adopted on request, and each
    /// component's outline drawn one frame deeper.
    fn draw_composite(
        &self,
        builder: &mut Builder,
        description: &CompositeDescription,
        fuel: u32,
    ) -> (r: Result<(), Error>)
        requires
            old(builder).wf(),
            old(builder).contour@.segments == Seq::<SegmentView>::empty(),
            old(builder).contour@.net == OffsetView::zero(),
            1 <= fuel <= MAX_COMPONENT_DEPTH,
            old(builder).offset@.bounded(frame_budget(fuel as int)),
        ensures
            final(builder).wf(),
            final(builder).offset == old(builder).offset,
            final(builder).contour@.segments == Seq::<SegmentView>::empty(),
            final(builder).contour@.net == OffsetView::zero(),
            final(builder).glyph@.bounding_box == old(builder).glyph@.bounding_box,
            ({
                let outcome = components_outcome(
                    self,
                    *description,
                    0,
                    old(builder).offset@,
                    old(builder).glyph@.last_position(),
                    None,
                    fuel as nat,
                );
                match outcome {
                    Ok(dv) => r is Ok && final(builder).glyph@.contours == old(
                        builder,
                    ).glyph@.contours + dv.contours && metrics_applied(
                        final(builder).glyph@,
                        old(builder).glyph@,
                        dv.metrics_override,
                    ),
                    Err(e) => r matches Err(e2) && e2 == e,
                }
            }),
        decreases fuel, 0int,
    {
        let ghost d = *description;
        let ghost frame = old(builder).offset@;
        let ghost last0 = old(builder).glyph@.last_position();
        let ghost full = components_outcome(self, d, 0, frame, last0, None, fuel as nat);
        let ghost mut adopted: Option<(int, int)> = None;
        let ghost mut built: Seq<ContourView> = Seq::empty();
        let mut idx: usize = 0;
        proof {
            if let Ok(rdv) = full {
                assert(Seq::<ContourView>::empty() + rdv.contours =~= rdv.contours);
            }
        }
        while idx < description.components.len()
            invariant
                builder.wf(),
                idx <= description.components@.len(),
                1 <= fuel <= MAX_COMPONENT_DEPTH,
                d == *description,
                full == components_outcome(self, d, 0, frame, last0, None, fuel as nat),
                builder.offset == old(builder).offset,
                frame == builder.offset@,
                frame.bounded(frame_budget(fuel as int)),
                last0 == old(builder).glyph@.last_position(),
                builder.contour@.segments == Seq::<SegmentView>::empty(),
                builder.contour@.net == OffsetView::zero(),
                builder.glyph@.bounding_box == old(builder).glyph@.bounding_box,
                builder.glyph@.contours == old(builder).glyph@.contours + built,
                metrics_applied(builder.glyph@, old(builder).glyph@, adopted),
                ({
                    let rest = components_outcome(
                        self,
                        d,
                        idx as int,
                        frame,
                        builder.glyph@.last_position(),
                        adopted,
                        fuel as nat,
                    );
                    match rest {
                        Err(e) => full matches Err(e2) && e2 == e,
                        Ok(rdv) => full matches Ok(fdv) && fdv.contours == built + rdv.contours
                            && fdv.metrics_override == rdv.metrics_override,
                    }
                }),
            decreases description.components@.len() - idx,
        {
            let ghost cur_last = builder.glyph@.last_position();
            let ghost comp_spec = d.components@[idx as int];
            let ghost rest0 = components_outcome(
                self,
                d,
                idx as int,
                frame,
                cur_last,
                adopted,
                fuel as nat,
            );
            let component = &description.components[idx];
            let offset = match component.arguments {
                Arguments::Offsets(x, y) => Offset::from_units(x, y),
                Arguments::Indices(_, _) => {
                    proof {
                        assert(rest0 matches Err(e) && e == Error::UnsupportedFeature);
                    }
                    return Err(Error::UnsupportedFeature);
                },
            };
            match &component.transform {
                Some(_) => {
                    proof {
                        assert(rest0 matches Err(e) && e == Error::UnsupportedFeature);
                    }
                    return Err(Error::UnsupportedFeature);
                },
                None => {},
            }
            let glyph_index = component.glyph_index;
            let slot = self.glyph_data.get(glyph_index as usize);
            match slot {
                None => {
                    proof {
                        assert(glyph_index as int >= self.glyph_data.records@.len());
                        assert(rest0 matches Err(e) && e == Error::MalformedGlyph);
                    }
                    return Err(Error::MalformedGlyph);
                },
                Some(entry) => {
                    match entry {
                        Option::None => {
                            proof {
                                assert(rest0 == components_outcome(
                                    self,
                                    d,
                                    idx + 1,
                                    frame,
                                    cur_last,
                                    adopted,
                                    fuel as nat,
                                ));
                            }
                        },
                        Option::Some(child) => {
                            if component.use_metrics {
                                let horizontal = self.metrics.get(glyph_index);
                                builder.set_horizontal_metrics(horizontal);
                                proof {
                                    adopted = Some((horizontal.0 as int, horizontal.1 as int));
                                    assert(adopted == Some(metrics_get(*self.metrics, glyph_index)));
                                }
                            }
                            proof {
                                assert(offset@.bounded(POINT_LIMIT as int));
                                assert(frame.plus(offset@).bounded(frame_budget(fuel as int - 1)));
                            }
                            builder.push_frame(offset);
                            let res = self.draw_glyph(builder, child, fuel - 1);
                            let ghost child_out = glyph_outcome(
                                self,
                                *child,
                                frame.plus(offset@),
                                cur_last,
                                (fuel - 1) as nat,
                            );
                            builder.pop_frame(offset);
                            proof {
                                assert(builder.offset@ == frame);
                                assert(builder.offset.x == old(builder).offset.x
                                    && builder.offset.y == old(builder).offset.y);
                            }
                            match res {
                                Err(e) => {
                                    proof {
                                        assert(child_out matches Err(e2) && e2 == e);
                                        assert(rest0 matches Err(e2) && e2 == e);
                                    }
                                    return Err(e);
                                },
                                Ok(_) => {},
                            }
                            proof {
                                let dv = child_out->Ok_0;
                                let prev1 = if dv.contours.len() == 0 {
                                    cur_last
                                } else {
                                    dv.contours.last().position
                                };
                                if dv.contours.len() == 0 {
                                    assert(builder.glyph@.contours =~= old(builder).glyph@.contours
                                        + built + dv.contours);
                                }
                                assert(builder.glyph@.last_position() == prev1);
                                let built1 = built + dv.contours;
                                assert(old(builder).glyph@.contours + built1
                                    =~= (old(builder).glyph@.contours + built) + dv.contours);
                                built = built1;
                                if dv.metrics_override is Some {
                                    adopted = dv.metrics_override;
                                }
                                let rest1 = components_outcome(
                                    self,
                                    d,
                                    idx + 1,
                                    frame,
                                    prev1,
                                    adopted,
                                    fuel as nat,
                                );
                                match rest1 {
                                    Err(_) => {},
                                    Ok(rdv) => {
                                        assert(rest0 matches Ok(r0) && r0.contours == dv.contours
                                            + rdv.contours && r0.metrics_override
                                            == rdv.metrics_override);
                                        assert(built + rdv.contours =~= (built1.subrange(
                                            0,
                                            built1.len() - dv.contours.len(),
                                        ) + (dv.contours + rdv.contours)));
                                    },
                                }
                            }
                        },
                    }
                },
            }
            idx = idx + 1;
        }
        proof {
            let rest = components_outcome(
                self,
                d,
                idx as int,
                frame,
                builder.glyph@.last_position(),
                adopted,
                fuel as nat,
            );
            assert(rest == Ok::<DecodeView, Error>(
                DecodeView { contours: Seq::empty(), metrics_override: adopted },
            ));
        }
        Ok(())
    }
}

/// What one character's drawing request returns, in full. An unmapped
/// character is an absent glyph, not an error; a glyph index past the table
/// is a malformed font; an in-range empty slot is a glyph with no outline
/// but valid metrics; otherwise the outline decode decides, with the right
/// side bearing derived from the final metrics and the bounding-box width.
pub open spec fn draw_outcome(case: &TrueType, character: char) -> Result<
    Option<GlyphView>,
    Error,
> {
    let map = case.mapping.view();
    if !map.contains_key(character as u32) {
        Ok(None)
    } else {
        let glyph_index = map[character as u32];
        if glyph_index as int >= case.glyph_data.records@.len() {
            Err(Error::MalformedGlyph)
        } else {
            let horizontal = metrics_get(*case.metrics, glyph_index);
            match case.glyph_data.records@[glyph_index as int] {
                None => Ok(
                    Some(
                        GlyphView {
                            contours: Seq::empty(),
                            bounding_box: (0, 0, 0, 0),
                            advance_width: horizontal.0,
                            side_bearings: (horizontal.1, horizontal.0 - (horizontal.1 + 0)),
                        },
                    ),
                ),
                Some(raw) => match glyph_outcome(
                    case,
                    raw,
                    OffsetView::zero(),
                    OffsetView::zero(),
                    MAX_COMPONENT_DEPTH as nat,
                ) {
                    Err(e) => Err(e),
                    Ok(dv) => {
                        let finished = match dv.metrics_override {
                            Some(o) => o,
                            None => horizontal,
                        };
                        let box_x = (2 * raw.min_x as int, 2 * raw.max_x as int);
                        Ok(
                            Some(
                                GlyphView {
                                    contours: dv.contours,
                                    bounding_box: (
                                        box_x.0,
                                        2 * raw.min_y as int,
                                        box_x.1,
                                        2 * raw.max_y as int,
                                    ),
                                    advance_width: finished.0,
                                    side_bearings: (
                                        finished.1,
                                        finished.0 - (finished.1 + (box_x.1 - box_x.0)),
                                    ),
                                },
                            ),
                        )
                    },
                },
            }
        }
    }
}

/// A drawing result, seen mathematically.
pub open spec fn result_view(r: Result<Option<Glyph>, Error>) -> Result<Option<GlyphView>, Error> {
    match r {
        Ok(og) => match og {
            Some(g) => Ok(Some(g@)),
            None => Ok(None),
        },
        Err(e) => Err(e),
    }
}

impl TrueType {
    /// Draws one character: resolves it through the character mapping,
    /// fetches the raw glyph, decodes the outline into a fresh builder, and
    /// finishes the glyph — exactly as [`draw_outcome`] describes. On top of
    /// that, every contour of a returned glyph is closed: its segments' end
    /// offsets sum to zero.
    pub fn draw(&self, glyph: char) -> (r: Result<Option<Glyph>, Error>)
        ensures
            result_view(r) == draw_outcome(self, glyph),
            match r {
                Ok(drawn) => match drawn {
                    Some(g) => g@.closed() && g@.side_bearings.1 == g@.advance_width - (
                    g@.side_bearings.0 + (g@.bounding_box.2 - g@.bounding_box.0)),
                    None => true,
                },
                Err(_) => true,
            },
    {
        let mut builder = Builder::new();
        let glyph_index = match self.mapping.find(glyph) {
            Some(glyph_index) => glyph_index,
            None => {
                return Ok(None);
            },
        };
        let slot = match self.glyph_data.get(glyph_index as usize) {
            Some(slot) => slot,
            None => {
                return Err(Error::MalformedGlyph);
            },
        };
        builder.set_horizontal_metrics(self.metrics.get(glyph_index));
        match slot {
            Option::Some(raw) => {
                let res = self.draw_glyph(&mut builder, raw, MAX_COMPONENT_DEPTH);
                match res {
                    Err(e) => {
                        return Err(e);
                    },
                    Ok(_) => {},
                }
                builder.set_bounding_box(
                    2 * raw.min_x as i64,
                    2 * raw.min_y as i64,
                    2 * raw.max_x as i64,
                    2 * raw.max_y as i64,
                );
                proof {
                    lemma_decode_closed(
                        &self.glyph_data,
                        &self.metrics,
                        *raw,
                        OffsetView::zero(),
                        OffsetView::zero(),
                        MAX_COMPONENT_DEPTH as nat,
                    );
                    let dv = glyph_outcome(
                        self,
                        *raw,
                        OffsetView::zero(),
                        OffsetView::zero(),
                        MAX_COMPONENT_DEPTH as nat,
                    )->Ok_0;
                    assert(Seq::<ContourView>::empty() + dv.contours =~= dv.contours);
                }
            },
            Option::None => {},
        }
        let finished = builder.into_glyph();
        proof {
            assert(finished@.contours =~= builder.glyph@.contours);
        }
        Ok(Some(finished))
    }
}

} // verus!
