//! The mathematical model of outline decoding. The executable decoders in
//! [`crate::truetype`] promise to return exactly what these functions
//! describe, and the laws at the bottom are proved of the model once and for
//! all: every decoded contour closes, no empty contour is kept, and nesting a
//! decode in a translated frame only translates its contour positions.

use vstd::prelude::*;

use crate::glyph::{net_of, ContourView, SegmentView};
use crate::glyph_data::{Arguments, Component, CompositeDescription, Description, GlyphData,
    RawGlyph, SimpleDescription};
use crate::metrics::{metrics_get, Metrics};
use crate::offset::OffsetView;
use crate::Error;

verus! {

/// How deep composite glyphs may nest. A reference chain longer than this is
/// rejected as malformed; it would otherwise never terminate on a cyclic
/// glyph table.
pub const MAX_COMPONENT_DEPTH: u32 = 32;

/// The simple decoder's state while walking one contour's points.
pub struct WalkView {
    /// Where the pen stands: the end of the last emitted segment, or the
    /// contour's first point before anything is emitted.
    pub cursor: OffsetView,
    /// An off-curve point waiting to serve as the next segment's control.
    pub pending: Option<OffsetView>,
    /// The segments emitted so far.
    pub segments: Seq<SegmentView>,
}

/// Point `j` of the description, in half font units.
pub open spec fn point_at(d: SimpleDescription, j: int) -> OffsetView {
    OffsetView { x: 2 * d.x@[j], y: 2 * d.y@[j] }
}

/// The index of the first point of contour `c`.
pub open spec fn contour_start(d: SimpleDescription, c: int) -> int {
    if c == 0 {
        0
    } else {
        d.end_points@[c - 1] + 1
    }
}

/// The index of the last point of contour `c`.
pub open spec fn contour_end(d: SimpleDescription, c: int) -> int {
    d.end_points@[c] as int
}

/// The structural preconditions of the simple decoder: at least one point,
/// arrays of equal length, and contour boundaries that are strictly
/// increasing, leave every contour at least one point, and stay in range.
pub open spec fn simple_valid(d: SimpleDescription) -> bool {
    &&& d.on_curve@.len() > 0
    &&& d.x@.len() == d.on_curve@.len()
    &&& d.y@.len() == d.on_curve@.len()
    &&& forall|c: int|
        0 <= c < d.end_points@.len() ==> contour_start(d, c) <= #[trigger] contour_end(d, c)
            < d.on_curve@.len()
}

/// One step of the implicit-control-point state machine: the four cases of
/// the walk. An on-curve point ends a segment — quadratic if a control is
/// pending, else a line — while an off-curve point becomes the pending
/// control, first emitting a quadratic to the implied midpoint if another
/// control is already pending. A line to the point where the pen already
/// stands draws nothing and is skipped.
pub open spec fn walk_step(st: WalkView, p: OffsetView, on: bool) -> WalkView {
    if on {
        match st.pending {
            Some(q) => WalkView {
                cursor: p,
                pending: None,
                segments: st.segments.push(
                    SegmentView::Quadratic(q.minus(st.cursor), p.minus(st.cursor)),
                ),
            },
            None => if p == st.cursor {
                st
            } else {
                WalkView {
                    cursor: p,
                    pending: None,
                    segments: st.segments.push(SegmentView::Linear(p.minus(st.cursor))),
                }
            },
        }
    } else {
        match st.pending {
            Some(q) => {
                let m = q.mid(p);
                WalkView {
                    cursor: m,
                    pending: Some(p),
                    segments: st.segments.push(
                        SegmentView::Quadratic(q.minus(st.cursor), m.minus(st.cursor)),
                    ),
                }
            },
            None => WalkView { cursor: st.cursor, pending: Some(p), segments: st.segments },
        }
    }
}

/// The walk state after processing points `i + 1 ..= j` of the contour that
/// starts at point `i`. The pen starts on the first point; if that point is
/// off-curve it doubles as the initial pending control.
pub open spec fn walk(d: SimpleDescription, i: int, j: int) -> WalkView
    decreases j - i,
{
    if j <= i {
        WalkView {
            cursor: point_at(d, i),
            pending: if d.on_curve@[i] {
                None
            } else {
                Some(point_at(d, i))
            },
            segments: Seq::empty(),
        }
    } else {
        walk_step(walk(d, i, j - 1), point_at(d, j), d.on_curve@[j])
    }
}

/// The contour's full segment sequence: the walk over its points, then the
/// closing segments back to the start. The closing depends on whether the
/// first point was on-curve and whether a control is still pending:
/// - first on-curve, nothing pending: a line back to the start, skipped when
///   the pen already stands there;
/// - first on-curve, control pending: one quadratic through that control;
/// - first off-curve, nothing pending: one quadratic using the start itself
///   as its control;
/// - first off-curve, control pending: a quadratic to the midpoint implied
///   between the control and the start, then a quadratic from there using
///   the start as its own control.
pub open spec fn close_contour(d: SimpleDescription, i: int, k: int) -> Seq<SegmentView> {
    let st = walk(d, i, k);
    let start = point_at(d, i);
    if d.on_curve@[i] {
        match st.pending {
            None => if st.cursor == start {
                st.segments
            } else {
                st.segments.push(SegmentView::Linear(start.minus(st.cursor)))
            },
            Some(q) => st.segments.push(
                SegmentView::Quadratic(q.minus(st.cursor), start.minus(st.cursor)),
            ),
        }
    } else {
        match st.pending {
            None => st.segments.push(
                SegmentView::Quadratic(start.minus(st.cursor), start.minus(st.cursor)),
            ),
            Some(q) => {
                let m = q.mid(start);
                st.segments.push(
                    SegmentView::Quadratic(q.minus(st.cursor), m.minus(st.cursor)),
                ).push(SegmentView::Quadratic(start.minus(m), start.minus(m)))
            },
        }
    }
}

/// The contour over points `i ..= k` as recorded on the glyph: its segments,
/// its absolute starting position in the frame, and its starting offset
/// relative to the previously recorded contour's position `prev`. A contour
/// that emitted no segment is not recorded at all.
pub open spec fn contour_record_at(
    d: SimpleDescription,
    i: int,
    k: int,
    frame: OffsetView,
    prev: OffsetView,
) -> Option<ContourView> {
    let segments = close_contour(d, i, k);
    if segments.len() == 0 {
        None
    } else {
        let position = frame.plus(point_at(d, i));
        Some(
            ContourView {
                offset: position.minus(prev),
                position,
                segments,
                net: net_of(segments),
            },
        )
    }
}

/// Contour `c` as recorded on the glyph.
pub open spec fn contour_record(
    d: SimpleDescription,
    c: int,
    frame: OffsetView,
    prev: OffsetView,
) -> Option<ContourView> {
    contour_record_at(d, contour_start(d, c), contour_end(d, c), frame, prev)
}

/// The contours a simple description yields from contour `c` on, drawn in a
/// frame translated by `frame`, with `prev` the position of the last contour
/// already recorded.
pub open spec fn simple_contours(
    d: SimpleDescription,
    frame: OffsetView,
    prev: OffsetView,
    c: int,
) -> Seq<ContourView>
    decreases d.end_points@.len() - c,
{
    if c < 0 || c >= d.end_points@.len() {
        Seq::empty()
    } else {
        match contour_record(d, c, frame, prev) {
            None => simple_contours(d, frame, prev, c + 1),
            Some(cv) => seq![cv] + simple_contours(d, frame, cv.position, c + 1),
        }
    }
}

/// A component's translation, in half font units; absent when the component
/// uses point-index attachment, which is unsupported.
pub open spec fn component_offset(comp: Component) -> Option<OffsetView> {
    match comp.arguments {
        Arguments::Offsets(x, y) => Some(OffsetView { x: 2 * x, y: 2 * y }),
        Arguments::Indices(_, _) => None,
    }
}

/// What decoding one glyph contributes: contours, and the horizontal metrics
/// the glyph asks the composite to adopt, if any.
pub struct DecodeView {
    pub contours: Seq<ContourView>,
    pub metrics_override: Option<(int, int)>,
}

/// Decodes one raw glyph in a frame translated by `frame`, with `prev` the
/// position of the last contour already recorded and `fuel` the number of
/// composite nesting levels still allowed.
pub open spec fn decode_glyph(
    t: GlyphData,
    m: Metrics,
    raw: RawGlyph,
    frame: OffsetView,
    prev: OffsetView,
    fuel: nat,
) -> Result<DecodeView, Error>
    decreases fuel, 1nat, 0nat,
{
    match raw.description {
        Description::Simple(d) => if simple_valid(d) {
            Ok(
                DecodeView {
                    contours: simple_contours(d, frame, prev, 0),
                    metrics_override: None,
                },
            )
        } else {
            Err(Error::MalformedGlyph)
        },
        Description::Composite(cd) => if fuel == 0 {
            Err(Error::MalformedGlyph)
        } else {
            decode_components(t, m, cd, 0, frame, prev, None, fuel)
        },
    }
}

/// Decodes a composite's components from `idx` on. Each component must be a
/// plain translation; the referenced glyph must exist, an empty slot being
/// skipped; a metrics request takes that glyph's metrics, a later request —
/// also one made inside the referenced glyph — winning over an earlier one.
pub open spec fn decode_components(
    t: GlyphData,
    m: Metrics,
    cd: CompositeDescription,
    idx: int,
    frame: OffsetView,
    prev: OffsetView,
    adopted: Option<(int, int)>,
    fuel: nat,
) -> Result<DecodeView, Error>
    decreases fuel, 0nat, cd.components@.len() - idx,
{
    if idx < 0 || idx >= cd.components@.len() {
        Ok(DecodeView { contours: Seq::empty(), metrics_override: adopted })
    } else {
        let comp = cd.components@[idx];
        match component_offset(comp) {
            None => Err(Error::UnsupportedFeature),
            Some(off) => if comp.transform is Some {
                Err(Error::UnsupportedFeature)
            } else if comp.glyph_index as int >= t.records@.len() {
                Err(Error::MalformedGlyph)
            } else {
                match t.records@[comp.glyph_index as int] {
                    None => decode_components(t, m, cd, idx + 1, frame, prev, adopted, fuel),
                    Some(child) => {
                        let taken = if comp.use_metrics {
                            Some(metrics_get(m, comp.glyph_index))
                        } else {
                            adopted
                        };
                        if fuel == 0 {
                            Err(Error::MalformedGlyph)
                        } else {
                            match decode_glyph(t, m, child, frame.plus(off), prev, (fuel - 1) as nat) {
                                Err(e) => Err(e),
                                Ok(dv) => {
                                    let prev1 = if dv.contours.len() == 0 {
                                        prev
                                    } else {
                                        dv.contours.last().position
                                    };
                                    let taken1 = if dv.metrics_override is Some {
                                        dv.metrics_override
                                    } else {
                                        taken
                                    };
                                    match decode_components(t, m, cd, idx + 1, frame, prev1, taken1, fuel) {
                                        Err(e) => Err(e),
                                        Ok(rest) => Ok(
                                            DecodeView {
                                                contours: dv.contours + rest.contours,
                                                metrics_override: rest.metrics_override,
                                            },
                                        ),
                                    }
                                },
                            }
                        }
                    },
                }
            },
        }
    }
}

/// Appending a segment advances the net displacement by its end offset.
pub proof fn lemma_net_push(s: Seq<SegmentView>, x: SegmentView)
    ensures
        net_of(s.push(x)) == net_of(s).plus(x.end()),
{
    assert(s.push(x).drop_last() =~= s);
    assert(s.push(x).last() == x);
}

/// While a contour is walked, the net displacement of the emitted segments
/// always equals the pen's offset from the contour's first point.
pub proof fn lemma_walk_net(d: SimpleDescription, i: int, j: int)
    requires
        i <= j,
    ensures
        net_of(walk(d, i, j).segments) == walk(d, i, j).cursor.minus(point_at(d, i)),
    decreases j - i,
{
    if j <= i {
    } else {
        lemma_walk_net(d, i, j - 1);
        let st = walk(d, i, j - 1);
        let p = point_at(d, j);
        if d.on_curve@[j] {
            match st.pending {
                Some(q) => {
                    lemma_net_push(
                        st.segments,
                        SegmentView::Quadratic(q.minus(st.cursor), p.minus(st.cursor)),
                    );
                },
                None => {
                    if p != st.cursor {
                        lemma_net_push(st.segments, SegmentView::Linear(p.minus(st.cursor)));
                    }
                },
            }
        } else {
            match st.pending {
                Some(q) => {
                    let m = q.mid(p);
                    lemma_net_push(
                        st.segments,
                        SegmentView::Quadratic(q.minus(st.cursor), m.minus(st.cursor)),
                    );
                },
                None => {},
            }
        }
    }
}

/// Closure: the segments of a decoded contour sum to the zero offset — the
/// path returns exactly to its start — in all four closing cases.
pub proof fn lemma_contour_closes(d: SimpleDescription, i: int, k: int)
    requires
        i <= k,
    ensures
        net_of(close_contour(d, i, k)) == OffsetView::zero(),
{
    lemma_walk_net(d, i, k);
    let st = walk(d, i, k);
    let start = point_at(d, i);
    if d.on_curve@[i] {
        match st.pending {
            None => {
                if st.cursor != start {
                    lemma_net_push(st.segments, SegmentView::Linear(start.minus(st.cursor)));
                }
            },
            Some(q) => {
                lemma_net_push(
                    st.segments,
                    SegmentView::Quadratic(q.minus(st.cursor), start.minus(st.cursor)),
                );
            },
        }
    } else {
        match st.pending {
            None => {
                lemma_net_push(
                    st.segments,
                    SegmentView::Quadratic(start.minus(st.cursor), start.minus(st.cursor)),
                );
            },
            Some(q) => {
                let m = q.mid(start);
                let first = SegmentView::Quadratic(q.minus(st.cursor), m.minus(st.cursor));
                let second = SegmentView::Quadratic(start.minus(m), start.minus(m));
                lemma_net_push(st.segments, first);
                lemma_net_push(st.segments.push(first), second);
            },
        }
    }
}

/// Every contour a simple description yields is recorded closed and
/// consistent, and none of them is empty: a contour that emitted nothing is
/// elided, never recorded.
pub proof fn lemma_simple_contours_closed(
    d: SimpleDescription,
    frame: OffsetView,
    prev: OffsetView,
    c: int,
)
    requires
        simple_valid(d),
    ensures
        forall|i: int|
            0 <= i < simple_contours(d, frame, prev, c).len() ==> {
                let cv = #[trigger] simple_contours(d, frame, prev, c)[i];
                &&& cv.net == OffsetView::zero()
                &&& cv.net == net_of(cv.segments)
                &&& cv.segments.len() != 0
            },
    decreases d.end_points@.len() - c,
{
    if c < 0 || c >= d.end_points@.len() {
    } else {
        lemma_contour_closes(d, contour_start(d, c), contour_end(d, c));
        let s = simple_contours(d, frame, prev, c);
        match contour_record(d, c, frame, prev) {
            None => {
                lemma_simple_contours_closed(d, frame, prev, c + 1);
                let rest = simple_contours(d, frame, prev, c + 1);
                assert(s == rest);
                assert forall|i: int| 0 <= i < s.len() implies s[i] == rest[i] by {}
            },
            Some(cv) => {
                lemma_simple_contours_closed(d, frame, cv.position, c + 1);
                let rest = simple_contours(d, frame, cv.position, c + 1);
                assert(s == seq![cv] + rest);
                assert(s[0] == cv);
                assert forall|i: int| 1 <= i < s.len() implies s[i] == rest[i - 1] by {}
            },
        }
    }
}

/// Every contour in the sequence is closed — its net displacement is zero
/// and agrees with its segments — and holds at least one segment.
pub open spec fn contours_closed(cs: Seq<ContourView>) -> bool {
    forall|i: int|
        0 <= i < cs.len() ==> {
            let cv = #[trigger] cs[i];
            &&& cv.net == OffsetView::zero()
            &&& cv.net == net_of(cv.segments)
            &&& cv.segments.len() != 0
        }
}

/// Whatever a successful decode of a glyph yields — simple or composite,
/// however deeply nested — is a sequence of closed, nonempty contours.
pub proof fn lemma_decode_closed(
    t: &GlyphData,
    m: &Metrics,
    raw: RawGlyph,
    frame: OffsetView,
    prev: OffsetView,
    fuel: nat,
)
    ensures
        decode_glyph(*t, *m, raw, frame, prev, fuel) matches Ok(dv) ==> contours_closed(
            dv.contours,
        ),
    decreases fuel, 1nat, 0nat,
{
    match raw.description {
        Description::Simple(d) => {
            if simple_valid(d) {
                lemma_simple_contours_closed(d, frame, prev, 0);
            }
        },
        Description::Composite(cd) => {
            if fuel != 0 {
                lemma_decode_components_closed(t, m, cd, 0, frame, prev, None, fuel);
            }
        },
    }
}

proof fn lemma_decode_components_closed(
    t: &GlyphData,
    m: &Metrics,
    cd: CompositeDescription,
    idx: int,
    frame: OffsetView,
    prev: OffsetView,
    adopted: Option<(int, int)>,
    fuel: nat,
)
    ensures
        decode_components(*t, *m, cd, idx, frame, prev, adopted, fuel) matches Ok(dv)
            ==> contours_closed(dv.contours),
    decreases fuel, 0nat, cd.components@.len() - idx,
{
    if idx < 0 || idx >= cd.components@.len() {
    } else {
        let comp = cd.components@[idx];
        match component_offset(comp) {
            None => {},
            Some(off) => {
                if comp.transform is Some {
                } else if comp.glyph_index as int >= t.records@.len() {
                } else {
                    match t.records@[comp.glyph_index as int] {
                        None => {
                            lemma_decode_components_closed(t, m, cd, idx + 1, frame, prev, adopted, fuel);
                        },
                        Some(child) => {
                            if fuel != 0 {
                                lemma_decode_closed(t, m, child, frame.plus(off), prev, (fuel - 1) as nat);
                                match decode_glyph(*t, *m, child, frame.plus(off), prev, (fuel - 1) as nat) {
                                    Err(_) => {},
                                    Ok(dv) => {
                                        let prev1 = if dv.contours.len() == 0 {
                                            prev
                                        } else {
                                            dv.contours.last().position
                                        };
                                        let taken = if comp.use_metrics {
                                            Some(metrics_get(*m, comp.glyph_index))
                                        } else {
                                            adopted
                                        };
                                        let taken1 = if dv.metrics_override is Some {
                                            dv.metrics_override
                                        } else {
                                            taken
                                        };
                                        lemma_decode_components_closed(
                                            t,
                                            m,
                                            cd,
                                            idx + 1,
                                            frame,
                                            prev1,
                                            taken1,
                                            fuel,
                                        );
                                        match decode_components(*t, *m, cd, idx + 1, frame, prev1, taken1, fuel) {
                                            Err(_) => {},
                                            Ok(rest) => {
                                                assert forall|i: int|
                                                    0 <= i < (dv.contours + rest.contours).len()
                                                        implies {
                                                        let cv = #[trigger] (dv.contours
                                                            + rest.contours)[i];
                                                        &&& cv.net == OffsetView::zero()
                                                        &&& cv.net == net_of(cv.segments)
                                                        &&& cv.segments.len() != 0
                                                    } by {
                                                    if i < dv.contours.len() {
                                                        assert((dv.contours + rest.contours)[i]
                                                            == dv.contours[i]);
                                                    } else {
                                                        assert((dv.contours + rest.contours)[i]
                                                            == rest.contours[i - dv.contours.len()]);
                                                    }
                                                }
                                            },
                                        }
                                    },
                                }
                            }
                        },
                    }
                }
            },
        }
    }
}

/// Nesting translates, nothing more: decoding the same description in two
/// frames yields the same segments contour for contour; only the recorded
/// positions move with the frame.
pub proof fn lemma_simple_frame_translation(
    d: SimpleDescription,
    f1: OffsetView,
    p1: OffsetView,
    f2: OffsetView,
    p2: OffsetView,
    c: int,
)
    ensures
        simple_contours(d, f1, p1, c).len() == simple_contours(d, f2, p2, c).len(),
        forall|i: int|
            0 <= i < simple_contours(d, f1, p1, c).len() ==> {
                let a = #[trigger] simple_contours(d, f1, p1, c)[i];
                let b = simple_contours(d, f2, p2, c)[i];
                a.segments == b.segments && a.position == b.position.minus(f2).plus(f1)
            },
    decreases d.end_points@.len() - c,
{
    if c < 0 || c >= d.end_points@.len() {
    } else {
        match contour_record(d, c, f1, p1) {
            None => {
                lemma_simple_frame_translation(d, f1, p1, f2, p2, c + 1);
            },
            Some(a0) => {
                let b0 = contour_record(d, c, f2, p2)->Some_0;
                lemma_simple_frame_translation(d, f1, a0.position, f2, b0.position, c + 1);
            },
        }
    }
}

/// Composite translation composes: a composite of two untransformed
/// components that reference the same valid simple glyph yields two copies
/// of that glyph's contours — identical segments — whose positions are
/// translated by the respective component offsets, and adopts no metrics.
pub proof fn lemma_composite_translates(
    t: GlyphData,
    m: Metrics,
    cd: CompositeDescription,
    d: SimpleDescription,
    gi: u16,
    dx1: i32,
    dy1: i32,
    dx2: i32,
    dy2: i32,
    fuel: nat,
)
    requires
        cd.components@.len() == 2,
        cd.components@[0] == (Component {
            glyph_index: gi,
            arguments: Arguments::Offsets(dx1, dy1),
            transform: None,
            use_metrics: false,
        }),
        cd.components@[1] == (Component {
            glyph_index: gi,
            arguments: Arguments::Offsets(dx2, dy2),
            transform: None,
            use_metrics: false,
        }),
        (gi as int) < t.records@.len(),
        t.records@[gi as int] matches Some(raw) && raw.description == Description::Simple(d),
        simple_valid(d),
        fuel >= 1,
    ensures
        ({
            let base = simple_contours(d, OffsetView::zero(), OffsetView::zero(), 0);
            let o1 = OffsetView { x: 2 * dx1 as int, y: 2 * dy1 as int };
            let o2 = OffsetView { x: 2 * dx2 as int, y: 2 * dy2 as int };
            let r = decode_components(
                t,
                m,
                cd,
                0,
                OffsetView::zero(),
                OffsetView::zero(),
                None,
                fuel,
            );
            &&& r matches Ok(dv)
            &&& dv.metrics_override is None
            &&& dv.contours.len() == 2 * base.len()
            &&& forall|i: int|
                0 <= i < base.len() ==> (#[trigger] dv.contours[i]).segments == base[i].segments
                    && dv.contours[i].position == base[i].position.plus(o1)
            &&& forall|i: int|
                0 <= i < base.len() ==> (#[trigger] dv.contours[base.len() + i]).segments
                    == base[i].segments && dv.contours[base.len() + i].position
                    == base[i].position.plus(o2)
        }),
{
    let zero = OffsetView::zero();
    let base = simple_contours(d, zero, zero, 0);
    let o1 = OffsetView { x: 2 * dx1 as int, y: 2 * dy1 as int };
    let o2 = OffsetView { x: 2 * dx2 as int, y: 2 * dy2 as int };
    let raw = t.records@[gi as int]->Some_0;
    let sub = (fuel - 1) as nat;

    let cs1 = simple_contours(d, zero.plus(o1), zero, 0);
    assert(zero.plus(o1) == o1);
    assert(decode_glyph(t, m, raw, zero.plus(o1), zero, sub) == Ok::<DecodeView, Error>(
        DecodeView { contours: cs1, metrics_override: None },
    ));
    lemma_simple_frame_translation(d, o1, zero, zero, zero, 0);

    let prev1 = if cs1.len() == 0 {
        zero
    } else {
        cs1.last().position
    };
    let cs2 = simple_contours(d, zero.plus(o2), prev1, 0);
    assert(zero.plus(o2) == o2);
    assert(decode_glyph(t, m, raw, zero.plus(o2), prev1, sub) == Ok::<DecodeView, Error>(
        DecodeView { contours: cs2, metrics_override: None },
    ));
    lemma_simple_frame_translation(d, o2, prev1, zero, zero, 0);

    let prev2 = if cs2.len() == 0 {
        prev1
    } else {
        cs2.last().position
    };
    assert(decode_components(t, m, cd, 2, zero, prev2, None, fuel) == Ok::<DecodeView, Error>(
        DecodeView { contours: Seq::empty(), metrics_override: None },
    ));
    let r1 = decode_components(t, m, cd, 1, zero, prev1, None, fuel);
    assert(r1 matches Ok(dv1) && dv1.contours == cs2 + Seq::<ContourView>::empty()
        && dv1.metrics_override is None);
    let r = decode_components(t, m, cd, 0, zero, zero, None, fuel);
    assert(r matches Ok(dv) && dv.contours == cs1 + (cs2 + Seq::<ContourView>::empty())
        && dv.metrics_override is None);
    let all = cs1 + (cs2 + Seq::<ContourView>::empty());
    assert(all =~= cs1 + cs2);
    assert forall|i: int| 0 <= i < base.len() implies (cs1 + cs2)[i] == cs1[i] by {}
    assert forall|i: int| 0 <= i < base.len() implies (cs1 + cs2)[base.len() + i] == cs2[i] by {
        assert(cs1.len() == base.len());
    }
    assert forall|i: int| 0 <= i < base.len() implies base[i].position.minus(zero)
        == base[i].position by {}
}

} // verus!
