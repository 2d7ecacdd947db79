//! Reconstruction of glyph outlines from TrueType-style glyph descriptions.
//!
//! The crate turns pre-decoded glyph data — point coordinates, on/off-curve
//! flags, contour boundaries, and composite component records — into closed
//! contours of line and quadratic-Bézier segments, together with the metrics
//! needed to place the glyph. Coordinates are kept in half font units so that
//! the on-curve midpoints implied by consecutive off-curve points stay exact.

use vstd::prelude::*;

pub mod builder;
pub mod font;
pub mod glyph;
pub mod glyph_data;
pub mod mapping;
pub mod metrics;
pub mod offset;
pub mod outline;
pub mod truetype;

pub use builder::Builder;
pub use font::{new_font, Case, Font};
pub use glyph::{Contour, Glyph, Segment};
pub use glyph_data::{GlyphData, GlyphID};
pub use mapping::Mapping;
pub use metrics::Metrics;
pub use offset::{Number, Offset};
pub use truetype::TrueType;

verus! {

/// How a drawing request can fail.
#[derive(Clone, Copy, Debug, PartialEq, Eq, Structural)]
pub enum Error {
    /// The glyph description violates a structural precondition: mismatched
    /// array lengths, contour boundaries out of order or out of range, or a
    /// glyph index past the end of the glyph table.
    MalformedGlyph,
    /// A composite component asks for point-index attachment or a transform,
    /// neither of which is supported; rejecting beats a silently wrong shape.
    UnsupportedFeature,
    /// The character-to-glyph table holds no encoding at all.
    MissingEncoding,
    /// The first encoding of the character-to-glyph table has a format this
    /// crate does not read.
    UnsupportedEncoding,
}

} // verus!
