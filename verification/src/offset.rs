//! Two-dimensional offsets in half font units.
//!
//! Font files store coordinates as whole font units. The implied on-curve
//! point between two consecutive off-curve points is their midpoint, which can
//! land on a half unit; storing every coordinate doubled keeps all arithmetic
//! exact in integers.

use vstd::prelude::*;

verus! {

/// A scalar coordinate or length, in half font units.
pub type Number = i64;

/// A bound on the coordinates a point handed to the builder may have.
/// Coordinates converted from 32-bit font units stay well within it.
pub const POINT_LIMIT: i64 = 0x2_0000_0000;

/// A bound on the builder's nested-frame offset: component offsets are
/// bounded by `POINT_LIMIT` and at most `MAX_COMPONENT_DEPTH` frames stack.
pub const FRAME_LIMIT: i64 = 0x40_0000_0000;

/// A bound on the absolute positions the builder records: a frame offset
/// plus a point.
pub const POSITION_LIMIT: i64 = 0x80_0000_0000;

/// A bound on the metrics and bounding-box values the builder stores.
pub const METRIC_LIMIT: i64 = 0x100_0000_0000;

/// The mathematical value of an offset: a pair of unbounded integers,
/// still in half font units.
pub struct OffsetView {
    pub x: int,
    pub y: int,
}

impl OffsetView {
    pub open spec fn zero() -> OffsetView {
        OffsetView { x: 0, y: 0 }
    }

    pub open spec fn plus(self, other: OffsetView) -> OffsetView {
        OffsetView { x: self.x + other.x, y: self.y + other.y }
    }

    pub open spec fn minus(self, other: OffsetView) -> OffsetView {
        OffsetView { x: self.x - other.x, y: self.y - other.y }
    }

    pub open spec fn mid(self, other: OffsetView) -> OffsetView {
        OffsetView { x: (self.x + other.x) / 2, y: (self.y + other.y) / 2 }
    }

    pub open spec fn bounded(self, limit: int) -> bool {
        -limit <= self.x <= limit && -limit <= self.y <= limit
    }
}

/// A two-dimensional vector in half font units. It serves both as a delta
/// between positions and as an absolute position relative to the glyph origin.
#[derive(Clone, Copy, Debug, PartialEq, Eq, Hash, Structural)]
pub struct Offset {
    pub x: Number,
    pub y: Number,
}

impl View for Offset {
    type V = OffsetView;

    open spec fn view(&self) -> OffsetView {
        OffsetView { x: self.x as int, y: self.y as int }
    }
}

impl Offset {
    /// The zero offset.
    pub fn zero() -> (r: Offset)
        ensures
            r@ == OffsetView::zero(),
    {
        Offset { x: 0, y: 0 }
    }

    /// The point with the given whole-unit coordinates, in half units.
    pub fn from_units(x: i32, y: i32) -> (r: Offset)
        ensures
            r@ == (OffsetView { x: 2 * x as int, y: 2 * y as int }),
            r@.bounded(POINT_LIMIT as int),
    {
        Offset { x: 2 * x as i64, y: 2 * y as i64 }
    }

    /// The midpoint of the points with the given whole-unit coordinates.
    /// Working from the unit coordinates avoids any division: the midpoint
    /// of `2 * a` and `2 * b` is exactly `a + b` half units.
    pub fn midpoint_of_units(a: (i32, i32), b: (i32, i32)) -> (r: Offset)
        ensures
            r@ == (OffsetView { x: 2 * a.0 as int, y: 2 * a.1 as int }).mid(
                OffsetView { x: 2 * b.0 as int, y: 2 * b.1 as int },
            ),
            r@.bounded(POINT_LIMIT as int),
    {
        let r = Offset { x: a.0 as i64 + b.0 as i64, y: a.1 as i64 + b.1 as i64 };
        proof {
            assert(r.x as int == (2 * a.0 as int + 2 * b.0 as int) / 2);
            assert(r.y as int == (2 * a.1 as int + 2 * b.1 as int) / 2);
        }
        r
    }

    /// Component-wise addition.
    pub fn plus(self, other: Offset) -> (r: Offset)
        requires
            i64::MIN <= self.x + other.x <= i64::MAX,
            i64::MIN <= self.y + other.y <= i64::MAX,
        ensures
            r@ == self@.plus(other@),
    {
        Offset { x: self.x + other.x, y: self.y + other.y }
    }

    /// Component-wise subtraction.
    pub fn minus(self, other: Offset) -> (r: Offset)
        requires
            i64::MIN <= self.x - other.x <= i64::MAX,
            i64::MIN <= self.y - other.y <= i64::MAX,
        ensures
            r@ == self@.minus(other@),
    {
        Offset { x: self.x - other.x, y: self.y - other.y }
    }
}

} // verus!
