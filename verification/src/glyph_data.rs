//! Pre-decoded glyph descriptions, as the binary-parsing collaborator hands
//! them over: plain arrays of coordinates, flags, and indices.

use vstd::prelude::*;

verus! {

/// An index into the glyph table.
pub type GlyphID = u16;

/// One glyph's raw description: its extents, in whole font units, and either
/// a simple outline or a list of component references.
pub struct RawGlyph {
    pub min_x: i32,
    pub min_y: i32,
    pub max_x: i32,
    pub max_y: i32,
    pub description: Description,
}

/// A glyph description.
pub enum Description {
    /// Points, flags, and contour boundaries.
    Simple(SimpleDescription),
    /// References to other glyphs.
    Composite(CompositeDescription),
}

/// A simple-glyph description. Coordinates are absolute whole font units,
/// already resolved from the file's delta encoding (see
/// [`absolute_coordinates`]).
pub struct SimpleDescription {
    /// For each contour, the index of its last point. Indices grow strictly
    /// from one contour to the next.
    pub end_points: Vec<u16>,
    /// Whether each point lies on the curve; off-curve points are quadratic
    /// Bézier controls.
    pub on_curve: Vec<bool>,
    /// The points' x coordinates.
    pub x: Vec<i32>,
    /// The points' y coordinates.
    pub y: Vec<i32>,
}

/// A composite-glyph description.
pub struct CompositeDescription {
    pub components: Vec<Component>,
}

/// One component of a composite glyph.
pub struct Component {
    /// The referenced glyph.
    pub glyph_index: GlyphID,
    /// Where the component goes.
    pub arguments: Arguments,
    /// An optional transform; any transform is unsupported and rejected.
    pub transform: Option<Transform>,
    /// Whether the composite glyph takes its horizontal metrics from this
    /// component.
    pub use_metrics: bool,
}

/// The placement of a component.
pub enum Arguments {
    /// A translation, in whole font units.
    Offsets(i32, i32),
    /// Point indices to match; unsupported and rejected.
    Indices(u16, u16),
}

/// A transform a component may carry. None of these are supported: rejecting
/// them beats silently mis-rendering the glyph.
pub enum Transform {
    /// One scaling coefficient for both coordinates.
    Scalar,
    /// Separate scaling coefficients for the two coordinates.
    Vector,
    /// A full 2-by-2 matrix.
    Matrix,
}

/// The glyph table: one optional raw glyph per glyph index. An index past the
/// end is a malformed reference; a `None` entry is a valid glyph with no
/// outline, such as a space.
pub struct GlyphData {
    pub records: Vec<Option<RawGlyph>>,
}

impl GlyphData {
    /// How many glyph slots the table holds.
    pub fn len(&self) -> (r: usize)
        ensures
            r == self.records@.len(),
    {
        self.records.len()
    }

    /// The slot at the given index: absent when the index is out of range.
    pub fn get(&self, index: usize) -> (r: Option<&Option<RawGlyph>>)
        ensures
            index < self.records@.len() ==> r == Some(&self.records@[index as int]),
            index >= self.records@.len() ==> r is None,
    {
        if index < self.records.len() {
            Some(&self.records[index])
        } else {
            None
        }
    }
}

/// The sum of the first `n` deltas, widened to mathematical integers.
pub open spec fn delta_sum(deltas: Seq<i16>, n: int) -> int
    decreases n,
{
    if n <= 0 {
        0
    } else {
        delta_sum(deltas, n - 1) + deltas[n - 1]
    }
}

/// Resolves a delta-encoded coordinate array to absolute coordinates: each
/// output is the sum of the deltas up to and including its index. Font files
/// store at most `u16::MAX + 1` points, so the sums fit in 32 bits.
pub fn absolute_coordinates(deltas: &Vec<i16>) -> (r: Vec<i32>)
    requires
        deltas@.len() <= 0x10000,
    ensures
        r@.len() == deltas@.len(),
        forall|i: int| 0 <= i < r@.len() ==> r@[i] == delta_sum(deltas@, i + 1),
{
    let mut r: Vec<i32> = Vec::new();
    let mut sum: i32 = 0;
    let mut i: usize = 0;
    while i < deltas.len()
        invariant
            i <= deltas@.len(),
            deltas@.len() <= 0x10000,
            r@.len() == i,
            sum == delta_sum(deltas@, i as int),
            -0x8000 * i <= sum <= 0x7fff * i,
            forall|j: int| 0 <= j < i ==> r@[j] == delta_sum(deltas@, j + 1),
        decreases deltas@.len() - i,
    {
        proof {
            lemma_delta_sum_bounded(deltas@, i + 1);
        }
        sum = sum + deltas[i] as i32;
        r.push(sum);
        i = i + 1;
    }
    r
}

/// Partial delta sums grow by at most one 16-bit delta per step.
proof fn lemma_delta_sum_bounded(deltas: Seq<i16>, n: int)
    requires
        0 <= n <= deltas.len(),
    ensures
        -0x8000 * n <= delta_sum(deltas, n) <= 0x7fff * n,
    decreases n,
{
    if n > 0 {
        lemma_delta_sum_bounded(deltas, n - 1);
    }
}

} // verus!
