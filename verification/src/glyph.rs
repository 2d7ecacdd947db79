//! The drawable result of decoding: contours of typed segments plus metrics.

use vstd::prelude::*;

use crate::offset::{Number, Offset, OffsetView};

verus! {

/// One drawn primitive. Every field is an offset relative to the position at
/// which the segment starts, never an absolute position.
#[derive(Clone, Copy, Debug, PartialEq, Eq, Structural)]
pub enum Segment {
    /// A straight line to the offset.
    Linear(Offset),
    /// A quadratic Bézier curve: control offset, then end offset.
    Quadratic(Offset, Offset),
    /// A cubic Bézier curve: two control offsets, then the end offset.
    Cubic(Offset, Offset, Offset),
}

/// The mathematical value of a segment, over unbounded coordinates.
pub enum SegmentView {
    Linear(OffsetView),
    Quadratic(OffsetView, OffsetView),
    Cubic(OffsetView, OffsetView, OffsetView),
}

impl View for Segment {
    type V = SegmentView;

    open spec fn view(&self) -> SegmentView {
        match *self {
            Segment::Linear(a) => SegmentView::Linear(a@),
            Segment::Quadratic(a, b) => SegmentView::Quadratic(a@, b@),
            Segment::Cubic(a, b, c) => SegmentView::Cubic(a@, b@, c@),
        }
    }
}

impl SegmentView {
    /// Where the segment ends, relative to where it starts.
    pub open spec fn end(self) -> OffsetView {
        match self {
            SegmentView::Linear(a) => a,
            SegmentView::Quadratic(_, b) => b,
            SegmentView::Cubic(_, _, c) => c,
        }
    }
}

/// The sum of the end offsets of a sequence of segments: the net displacement
/// a pen accumulates drawing them in order.
pub open spec fn net_of(segments: Seq<SegmentView>) -> OffsetView
    decreases segments.len(),
{
    if segments.len() == 0 {
        OffsetView::zero()
    } else {
        net_of(segments.drop_last()).plus(segments.last().end())
    }
}

/// One closed sub-path of a glyph.
pub struct Contour {
    /// The offset from the previous contour's starting position (or from the
    /// glyph origin, for the first contour) to this contour's start.
    pub offset: Offset,
    /// The absolute position at which the contour starts.
    pub position: Offset,
    /// The segments, in drawing order.
    pub segments: Vec<Segment>,
    /// The running sum of the segments' end offsets. A finished contour
    /// returns to its start, so the sum is zero.
    pub net: Offset,
}

/// The mathematical value of a contour.
pub struct ContourView {
    pub offset: OffsetView,
    pub position: OffsetView,
    pub segments: Seq<SegmentView>,
    pub net: OffsetView,
}

impl View for Contour {
    type V = ContourView;

    open spec fn view(&self) -> ContourView {
        ContourView {
            offset: self.offset@,
            position: self.position@,
            segments: self.segments@.map_values(|s: Segment| s@),
            net: self.net@,
        }
    }
}

impl ContourView {
    /// An open contour that holds nothing yet.
    pub open spec fn empty() -> ContourView {
        ContourView {
            offset: OffsetView::zero(),
            position: OffsetView::zero(),
            segments: Seq::empty(),
            net: OffsetView::zero(),
        }
    }

    /// The contour's accumulator agrees with its segments.
    pub open spec fn consistent(self) -> bool {
        self.net == net_of(self.segments)
    }
}

impl Contour {
    /// A fresh, empty contour.
    pub fn new() -> (r: Contour)
        ensures
            r@ == ContourView::empty(),
    {
        let r = Contour {
            offset: Offset::zero(),
            position: Offset::zero(),
            segments: Vec::new(),
            net: Offset::zero(),
        };
        proof {
            assert(r@.segments =~= Seq::<SegmentView>::empty());
        }
        r
    }
}

/// One character's complete drawable shape plus its metrics. Lengths and
/// coordinates are in half font units.
pub struct Glyph {
    /// The contours, in drawing order.
    pub contours: Vec<Contour>,
    /// The bounding box: minimum x, minimum y, maximum x, maximum y.
    pub bounding_box: (Number, Number, Number, Number),
    /// The horizontal advance.
    pub advance_width: Number,
    /// The left and right side bearings.
    pub side_bearings: (Number, Number),
}

/// The mathematical value of a glyph.
pub struct GlyphView {
    pub contours: Seq<ContourView>,
    pub bounding_box: (int, int, int, int),
    pub advance_width: int,
    pub side_bearings: (int, int),
}

impl View for Glyph {
    type V = GlyphView;

    open spec fn view(&self) -> GlyphView {
        GlyphView {
            contours: self.contours@.map_values(|c: Contour| c@),
            bounding_box: (
                self.bounding_box.0 as int,
                self.bounding_box.1 as int,
                self.bounding_box.2 as int,
                self.bounding_box.3 as int,
            ),
            advance_width: self.advance_width as int,
            side_bearings: (self.side_bearings.0 as int, self.side_bearings.1 as int),
        }
    }
}

impl GlyphView {
    /// A glyph with no contours and all metrics zero.
    pub open spec fn empty() -> GlyphView {
        GlyphView {
            contours: Seq::empty(),
            bounding_box: (0, 0, 0, 0),
            advance_width: 0,
            side_bearings: (0, 0),
        }
    }

    /// Where the last recorded contour starts, or the origin when none has
    /// been recorded yet. New contours are anchored relative to it.
    pub open spec fn last_position(self) -> OffsetView {
        if self.contours.len() == 0 {
            OffsetView::zero()
        } else {
            self.contours.last().position
        }
    }

    /// Every contour is closed: drawing its segments in order returns
    /// exactly to its starting position.
    pub open spec fn closed(self) -> bool {
        forall|i: int|
            0 <= i < self.contours.len() ==> (#[trigger] self.contours[i]).net
                == OffsetView::zero() && self.contours[i].consistent()
    }
}

impl Glyph {
    /// A fresh glyph with no contours and zero metrics.
    pub fn new() -> (r: Glyph)
        ensures
            r@ == GlyphView::empty(),
    {
        let r = Glyph {
            contours: Vec::new(),
            bounding_box: (0, 0, 0, 0),
            advance_width: 0,
            side_bearings: (0, 0),
        };
        proof {
            assert(r@.contours =~= Seq::<ContourView>::empty());
        }
        r
    }

    /// How many contours the glyph holds.
    pub fn len(&self) -> (r: usize)
        ensures
            r == self@.contours.len(),
    {
        self.contours.len()
    }
}

} // verus!
