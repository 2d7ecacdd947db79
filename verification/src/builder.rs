//! Mutable construction state for one glyph: an open contour, the glyph
//! accumulated so far, and the offset of the nested coordinate frame.

use vstd::prelude::*;

use crate::glyph::{Contour, ContourView, Glyph, GlyphView, Segment};
use crate::offset::{Number, Offset, OffsetView, FRAME_LIMIT, METRIC_LIMIT, POINT_LIMIT,
    POSITION_LIMIT};

verus! {

/// Construction state for one drawing call. It is consumed into the finished
/// glyph by [`Builder::into_glyph`] and never shared across calls.
pub struct Builder {
    /// The contour currently being built.
    pub contour: Contour,
    /// The glyph under construction.
    pub glyph: Glyph,
    /// The offset of the current nested coordinate frame. Composite glyphs
    /// push one frame per component so that a referenced glyph's absolute
    /// coordinates land translated in the composite's space.
    pub offset: Offset,
}

impl Builder {
    /// The builder's coordinates stay within the ranges its arithmetic needs.
    pub open spec fn wf(self) -> bool {
        &&& self.offset@.bounded(FRAME_LIMIT as int)
        &&& self.contour@.position.bounded(POSITION_LIMIT as int)
        &&& forall|i: int|
            0 <= i < self.glyph@.contours.len() ==> (
            #[trigger] self.glyph@.contours[i]).position.bounded(POSITION_LIMIT as int)
        &&& self.glyph@.bounding_box.0 <= METRIC_LIMIT && -METRIC_LIMIT
            <= self.glyph@.bounding_box.0
        &&& self.glyph@.bounding_box.2 <= METRIC_LIMIT && -METRIC_LIMIT
            <= self.glyph@.bounding_box.2
        &&& self.glyph@.advance_width <= METRIC_LIMIT && -METRIC_LIMIT
            <= self.glyph@.advance_width
        &&& self.glyph@.side_bearings.0 <= METRIC_LIMIT && -METRIC_LIMIT
            <= self.glyph@.side_bearings.0
    }

    /// A fresh builder: empty contour, empty glyph, origin frame.
    pub fn new() -> (r: Builder)
        ensures
            r.contour@ == ContourView::empty(),
            r.glyph@ == GlyphView::empty(),
            r.offset@ == OffsetView::zero(),
            r.wf(),
    {
        Builder { contour: Contour::new(), glyph: Glyph::new(), offset: Offset::zero() }
    }

    /// Moves the cursor to an absolute position, given in the current nested
    /// frame. The open contour's starting position becomes the translated
    /// position, and its starting offset becomes the delta from the last
    /// recorded contour's start (or from the origin, for the first contour).
    pub fn move_absolute(&mut self, value: Offset)
        requires
            old(self).wf(),
            value@.bounded(POINT_LIMIT as int),
        ensures
            final(self).contour@.position == old(self).offset@.plus(value@),
            final(self).contour@.offset == old(self).offset@.plus(value@).minus(
                old(self).glyph@.last_position(),
            ),
            final(self).contour@.segments == old(self).contour@.segments,
            final(self).contour@.net == old(self).contour@.net,
            final(self).glyph == old(self).glyph,
            final(self).offset == old(self).offset,
            final(self).wf(),
    {
        let count = self.glyph.contours.len();
        let last = if count == 0 {
            Offset::zero()
        } else {
            proof {
                assert(self.glyph@.contours[count - 1] == self.glyph.contours@[count - 1]@);
            }
            self.glyph.contours[count - 1].position
        };
        let value = self.offset.plus(value);
        self.contour.offset = value.minus(last);
        self.contour.position = value;
    }

    /// Moves the cursor by a delta, accumulating onto whatever starting
    /// offset the open contour already has.
    pub fn move_relative(&mut self, value: Offset)
        requires
            old(self).wf(),
            old(self).contour@.position.plus(value@).bounded(POSITION_LIMIT as int),
            i64::MIN <= old(self).contour.offset.x + value.x <= i64::MAX,
            i64::MIN <= old(self).contour.offset.y + value.y <= i64::MAX,
        ensures
            final(self).contour@.position == old(self).contour@.position.plus(value@),
            final(self).contour@.offset == old(self).contour@.offset.plus(value@),
            final(self).contour@.segments == old(self).contour@.segments,
            final(self).contour@.net == old(self).contour@.net,
            final(self).glyph == old(self).glyph,
            final(self).offset == old(self).offset,
            final(self).wf(),
    {
        self.contour.offset = self.contour.offset.plus(value);
        self.contour.position = self.contour.position.plus(value);
    }

    /// Records the open contour on the glyph and opens a fresh one — unless
    /// the open contour holds no segment, in which case nothing changes: a
    /// contour that drew nothing never reaches the glyph.
    pub fn flush(&mut self)
        requires
            old(self).wf(),
        ensures
            old(self).contour@.segments.len() == 0 ==> *final(self) == *old(self),
            old(self).contour@.segments.len() != 0 ==> {
                &&& final(self).glyph@.contours == old(self).glyph@.contours.push(
                    old(self).contour@,
                )
                &&& final(self).contour@ == ContourView::empty()
                &&& final(self).glyph@.bounding_box == old(self).glyph@.bounding_box
                &&& final(self).glyph@.advance_width == old(self).glyph@.advance_width
                &&& final(self).glyph@.side_bearings == old(self).glyph@.side_bearings
                &&& final(self).offset == old(self).offset
            },
            final(self).wf(),
    {
        if self.contour.segments.len() == 0 {
            return ;
        }
        let mut done = Contour::new();
        core::mem::swap(&mut done, &mut self.contour);
        self.glyph.contours.push(done);
    }

    /// Enters a nested coordinate frame translated by the given offset.
    /// Callers leave the frame again with [`Builder::pop_frame`].
    pub fn push_frame(&mut self, offset: Offset)
        requires
            old(self).wf(),
            old(self).offset@.plus(offset@).bounded(FRAME_LIMIT as int),
        ensures
            final(self).offset@ == old(self).offset@.plus(offset@),
            final(self).contour == old(self).contour,
            final(self).glyph == old(self).glyph,
            final(self).wf(),
    {
        self.offset = self.offset.plus(offset);
    }

    /// Leaves a nested coordinate frame entered with the same offset.
    pub fn pop_frame(&mut self, offset: Offset)
        requires
            old(self).wf(),
            old(self).offset@.minus(offset@).bounded(FRAME_LIMIT as int),
        ensures
            final(self).offset@ == old(self).offset@.minus(offset@),
            final(self).contour == old(self).contour,
            final(self).glyph == old(self).glyph,
            final(self).wf(),
    {
        self.offset = self.offset.minus(offset);
    }

    /// Appends a line segment; its end offset is relative to the cursor.
    pub fn add_linear(&mut self, a: Offset)
        requires
            old(self).wf(),
            i64::MIN <= old(self).contour.net.x + a.x <= i64::MAX,
            i64::MIN <= old(self).contour.net.y + a.y <= i64::MAX,
        ensures
            final(self).contour@.segments == old(self).contour@.segments.push(
                Segment::Linear(a)@,
            ),
            final(self).contour@.net == old(self).contour@.net.plus(a@),
            final(self).contour@.offset == old(self).contour@.offset,
            final(self).contour@.position == old(self).contour@.position,
            final(self).glyph == old(self).glyph,
            final(self).offset == old(self).offset,
            final(self).wf(),
    {
        self.add_segment(Segment::Linear(a), a);
    }

    /// Appends a quadratic segment: a control offset and an end offset, both
    /// relative to the cursor.
    pub fn add_quadratic(&mut self, a: Offset, b: Offset)
        requires
            old(self).wf(),
            i64::MIN <= old(self).contour.net.x + b.x <= i64::MAX,
            i64::MIN <= old(self).contour.net.y + b.y <= i64::MAX,
        ensures
            final(self).contour@.segments == old(self).contour@.segments.push(
                Segment::Quadratic(a, b)@,
            ),
            final(self).contour@.net == old(self).contour@.net.plus(b@),
            final(self).contour@.offset == old(self).contour@.offset,
            final(self).contour@.position == old(self).contour@.position,
            final(self).glyph == old(self).glyph,
            final(self).offset == old(self).offset,
            final(self).wf(),
    {
        self.add_segment(Segment::Quadratic(a, b), b);
    }

    /// Appends a cubic segment: two control offsets and an end offset, all
    /// relative to the cursor.
    pub fn add_cubic(&mut self, a: Offset, b: Offset, c: Offset)
        requires
            old(self).wf(),
            i64::MIN <= old(self).contour.net.x + c.x <= i64::MAX,
            i64::MIN <= old(self).contour.net.y + c.y <= i64::MAX,
        ensures
            final(self).contour@.segments == old(self).contour@.segments.push(
                Segment::Cubic(a, b, c)@,
            ),
            final(self).contour@.net == old(self).contour@.net.plus(c@),
            final(self).contour@.offset == old(self).contour@.offset,
            final(self).contour@.position == old(self).contour@.position,
            final(self).glyph == old(self).glyph,
            final(self).offset == old(self).offset,
            final(self).wf(),
    {
        self.add_segment(Segment::Cubic(a, b, c), c);
    }

    /// Appends one segment and advances the net-offset accumulator by the
    /// segment's end offset.
    fn add_segment(&mut self, segment: Segment, end: Offset)
        requires
            old(self).wf(),
            segment@.end() == end@,
            i64::MIN <= old(self).contour.net.x + end.x <= i64::MAX,
            i64::MIN <= old(self).contour.net.y + end.y <= i64::MAX,
        ensures
            final(self).contour@.segments == old(self).contour@.segments.push(segment@),
            final(self).contour@.net == old(self).contour@.net.plus(end@),
            final(self).contour@.offset == old(self).contour@.offset,
            final(self).contour@.position == old(self).contour@.position,
            final(self).glyph == old(self).glyph,
            final(self).offset == old(self).offset,
            final(self).wf(),
    {
        self.contour.segments.push(segment);
        self.contour.net = self.contour.net.plus(end);
    }

    /// Records the glyph's bounding box; a later call overwrites an earlier
    /// one.
    pub fn set_bounding_box(&mut self, min_x: Number, min_y: Number, max_x: Number, max_y: Number)
        requires
            old(self).wf(),
            -METRIC_LIMIT <= min_x <= METRIC_LIMIT,
            -METRIC_LIMIT <= min_y <= METRIC_LIMIT,
            -METRIC_LIMIT <= max_x <= METRIC_LIMIT,
            -METRIC_LIMIT <= max_y <= METRIC_LIMIT,
        ensures
            final(self).glyph@.bounding_box == (
                min_x as int,
                min_y as int,
                max_x as int,
                max_y as int,
            ),
            final(self).glyph@.contours == old(self).glyph@.contours,
            final(self).glyph@.advance_width == old(self).glyph@.advance_width,
            final(self).glyph@.side_bearings == old(self).glyph@.side_bearings,
            final(self).contour == old(self).contour,
            final(self).offset == old(self).offset,
            final(self).wf(),
    {
        self.glyph.bounding_box = (min_x, min_y, max_x, max_y);
    }

    /// Records the glyph's advance width and left side bearing; a later call
    /// overwrites an earlier one, mirroring how a composite component may
    /// override the metrics.
    pub fn set_horizontal_metrics(&mut self, metrics: (Number, Number))
        requires
            old(self).wf(),
            -METRIC_LIMIT <= metrics.0 <= METRIC_LIMIT,
            -METRIC_LIMIT <= metrics.1 <= METRIC_LIMIT,
        ensures
            final(self).glyph@.advance_width == metrics.0 as int,
            final(self).glyph@.side_bearings == (
                metrics.1 as int,
                old(self).glyph@.side_bearings.1,
            ),
            final(self).glyph@.contours == old(self).glyph@.contours,
            final(self).glyph@.bounding_box == old(self).glyph@.bounding_box,
            final(self).contour == old(self).contour,
            final(self).offset == old(self).offset,
            final(self).wf(),
    {
        self.glyph.advance_width = metrics.0;
        self.glyph.side_bearings.0 = metrics.1;
    }

    /// Finishes construction: derives the right side bearing from the advance
    /// width, the left side bearing, and the bounding-box width, and hands
    /// the glyph out. The open contour, recorded or not, is discarded.
    pub fn into_glyph(self) -> (g: Glyph)
        requires
            self.wf(),
        ensures
            g@.contours == self.glyph@.contours,
            g@.bounding_box == self.glyph@.bounding_box,
            g@.advance_width == self.glyph@.advance_width,
            g@.side_bearings.0 == self.glyph@.side_bearings.0,
            g@.side_bearings.1 == self.glyph@.advance_width - (self.glyph@.side_bearings.0
                + (self.glyph@.bounding_box.2 - self.glyph@.bounding_box.0)),
    {
        let Builder { mut glyph, .. } = self;
        let width = glyph.bounding_box.2 - glyph.bounding_box.0;
        glyph.side_bearings.1 = glyph.advance_width - (glyph.side_bearings.0 + width);
        glyph
    }
}

} // verus!
