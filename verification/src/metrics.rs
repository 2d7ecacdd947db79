//! Per-glyph horizontal metrics and font-wide vertical metrics, modeled as
//! plain values. The font-level reader fills this in from the file's tables.

use vstd::prelude::*;

use crate::glyph_data::GlyphID;
use crate::offset::Number;

verus! {

/// The metrics table. The per-glyph part mirrors the file's layout: one
/// record of advance width and left side bearing per glyph up to a point,
/// then a run of bare left side bearings for the remaining glyphs, which all
/// share the last record's advance width. Whole font units.
pub struct Metrics {
    /// Advance width and left side bearing, per glyph.
    pub records: Vec<(u16, i16)>,
    /// Left side bearings of the glyphs past the records.
    pub left_side_bearings: Vec<i16>,
    /// Font-wide vertical metrics, in half font units.
    pub clipping_ascender: Number,
    pub ascender: Number,
    pub cap_height: Number,
    pub x_height: Number,
    pub descender: Number,
    pub clipping_descender: Number,
    pub line_gap: Number,
}

/// The advance width and left side bearing of a glyph, in half font units.
/// An index past both runs falls back to the nearest stored value rather
/// than failing: metrics lookup is total.
pub open spec fn metrics_get(m: Metrics, glyph_id: GlyphID) -> (int, int) {
    let i = glyph_id as int;
    let longs = m.records@.len() as int;
    if longs == 0 {
        (0, 0)
    } else if i < longs {
        (2 * m.records@[i].0, 2 * m.records@[i].1)
    } else {
        let shorts = m.left_side_bearings@.len() as int;
        let j = i - longs;
        if j < shorts {
            (2 * m.records@[longs - 1].0, 2 * m.left_side_bearings@[j])
        } else if shorts > 0 {
            (2 * m.records@[longs - 1].0, 2 * m.left_side_bearings@[shorts - 1])
        } else {
            (2 * m.records@[longs - 1].0, 2 * m.records@[longs - 1].1)
        }
    }
}

impl Metrics {
    /// Looks up a glyph's advance width and left side bearing.
    pub fn get(&self, glyph_id: GlyphID) -> (r: (Number, Number))
        ensures
            (r.0 as int, r.1 as int) == metrics_get(*self, glyph_id),
            -0x20000 <= r.0 <= 0x20000,
            -0x20000 <= r.1 <= 0x20000,
    {
        let i = glyph_id as usize;
        let longs = self.records.len();
        if longs == 0 {
            (0, 0)
        } else if i < longs {
            let record = self.records[i];
            (2 * record.0 as i64, 2 * record.1 as i64)
        } else {
            let advance = 2 * self.records[longs - 1].0 as i64;
            let shorts = self.left_side_bearings.len();
            let j = i - longs;
            if j < shorts {
                (advance, 2 * self.left_side_bearings[j] as i64)
            } else if shorts > 0 {
                (advance, 2 * self.left_side_bearings[shorts - 1] as i64)
            } else {
                (advance, 2 * self.records[longs - 1].1 as i64)
            }
        }
    }
}

} // verus!
