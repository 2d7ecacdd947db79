//! A loaded font: its font-wide values and the drawing case behind it.

use vstd::prelude::*;

use opentype::truetype::tables::FontHeader;

use crate::glyph::Glyph;
use crate::metrics::Metrics;
use crate::offset::Number;
use crate::truetype::{draw_outcome, result_view, TrueType};
use crate::Error;

verus! {

#[verifier::external_type_specification]
#[verifier::external_body]
pub struct ExFontHeader(FontHeader);

/// The `unitsPerEm` field of the font header.
pub uninterp spec fn header_units_per_em(font_header: FontHeader) -> u16;

/// Whether the font header's flags put the baseline at y = 0.
pub uninterp spec fn header_baseline_at_zero(font_header: FontHeader) -> bool;

/// Relies on truetype's `FontHeader`: `units_per_em` is a plain field of the
/// parsed header.
#[verifier::external_body]
fn units_per_em(font_header: &FontHeader) -> (r: u16)
    ensures
        r == header_units_per_em(*font_header),
{
    font_header.units_per_em
}

/// Relies on truetype's font-header `Flags`: `is_baseline_at_0` reads the
/// lowest flag bit.
#[verifier::external_body]
fn is_baseline_at_0(font_header: &FontHeader) -> (r: bool)
    ensures
        r == header_baseline_at_zero(*font_header),
{
    font_header.flags.is_baseline_at_0()
}

/// The glyph-drawing capability, by font technology. Only outline-based
/// TrueType glyph data is supported here.
pub enum Case {
    TrueType(TrueType),
}

impl Case {
    /// Draws one character through whichever technology backs the font.
    pub fn draw(&self, glyph: char) -> (r: Result<Option<Glyph>, Error>)
        ensures
            self matches Case::TrueType(case) ==> result_view(r) == draw_outcome(&case, glyph),
            match r {
                Ok(drawn) => match drawn {
                    Some(g) => g@.closed(),
                    None => true,
                },
                Err(_) => true,
            },
    {
        match self {
            Case::TrueType(case) => case.draw(glyph),
        }
    }
}

/// One logical font: its font-wide vertical values, in half font units, and
/// its drawing case. A baseline of `None` means the header does not promise
/// a baseline at y = 0, so none is known.
pub struct Font {
    pub units_per_em: Number,
    pub clipping_ascender: Number,
    pub ascender: Number,
    pub cap_height: Number,
    pub x_height: Number,
    pub baseline: Option<Number>,
    pub descender: Number,
    pub clipping_descender: Number,
    pub line_gap: Number,
    pub case: Case,
}

impl Font {
    /// Draws one character of this font.
    pub fn draw(&self, glyph: char) -> (r: Result<Option<Glyph>, Error>)
        ensures
            self.case matches Case::TrueType(case) ==> result_view(r) == draw_outcome(
                &case,
                glyph,
            ),
            match r {
                Ok(drawn) => match drawn {
                    Some(g) => g@.closed(),
                    None => true,
                },
                Err(_) => true,
            },
    {
        self.case.draw(glyph)
    }
}

/// Assembles a font from its parsed header, its metrics, and a drawing case:
/// the em size comes from the header, the vertical values from the metrics,
/// and the baseline is zero exactly when the header vouches for it.
pub fn new_font(font_header: &FontHeader, metrics: &Metrics, case: Case) -> (r: Font)
    ensures
        r.units_per_em == 2 * header_units_per_em(*font_header),
        r.clipping_ascender == metrics.clipping_ascender,
        r.ascender == metrics.ascender,
        r.cap_height == metrics.cap_height,
        r.x_height == metrics.x_height,
        r.baseline == if header_baseline_at_zero(*font_header) {
            Some(0 as Number)
        } else {
            None::<Number>
        },
        r.descender == metrics.descender,
        r.clipping_descender == metrics.clipping_descender,
        r.line_gap == metrics.line_gap,
        r.case == case,
{
    Font {
        units_per_em: 2 * units_per_em(font_header) as i64,
        clipping_ascender: metrics.clipping_ascender,
        ascender: metrics.ascender,
        cap_height: metrics.cap_height,
        x_height: metrics.x_height,
        baseline: if is_baseline_at_0(font_header) {
            Some(0)
        } else {
            None
        },
        descender: metrics.descender,
        clipping_descender: metrics.clipping_descender,
        line_gap: metrics.line_gap,
        case,
    }
}

} // verus!
