//! The character-to-glyph mapping, built once from the font's parsed
//! character-mapping table and then queried per character.

use vstd::prelude::*;

use std::collections::HashMap;

use opentype::truetype::tables::character_mapping::{CharacterMapping, Encoding};

use crate::glyph_data::GlyphID;
use crate::Error;

verus! {

broadcast use vstd::std_specs::hash::group_hash_axioms;

#[verifier::external_type_specification]
#[verifier::external_body]
pub struct ExCharacterMapping(CharacterMapping);

/// The character-to-glyph pairs that the first encoding of the table holds.
pub uninterp spec fn cmap_entries(character_mapping: CharacterMapping) -> Map<u32, GlyphID>;

/// Whether the table holds at least one encoding.
pub uninterp spec fn cmap_present(character_mapping: CharacterMapping) -> bool;

/// Whether the first encoding has one of the formats this crate reads:
/// 0, 4, 6, or 12.
pub uninterp spec fn cmap_supported(character_mapping: CharacterMapping) -> bool;

/// Whether the table's subtables are internally consistent, so that reading
/// their pairs returns normally: glyph indices stay within the stored
/// arrays, no segment reaches past the top of the character range, and no
/// group ends before it starts. Every table that truetype's own reader
/// accepts from a font file satisfies this.
pub uninterp spec fn cmap_readable(character_mapping: CharacterMapping) -> bool;

/// Relies on truetype's `CharacterMapping`: `encodings` lists the parsed
/// subtables in table order, and `mapping` on a format 0, 4, 6, or 12
/// subtable computes the character-to-glyph pairs that the subtable encodes,
/// keyed uniquely by character. The pairs come back in no particular order.
#[verifier::external_body]
fn read_encoding(character_mapping: &CharacterMapping) -> (r: Result<Vec<(u32, GlyphID)>, Error>)
    requires
        cmap_readable(*character_mapping),
    ensures
        r is Ok ==> cmap_readable(*character_mapping),
        r matches Ok(v) ==> {
            &&& forall|i: int, j: int| 0 <= i < j < v@.len() ==> v@[i].0 != v@[j].0
            &&& forall|i: int|
                0 <= i < v@.len() ==> cmap_entries(*character_mapping).contains_key(
                    (#[trigger] v@[i]).0,
                ) && cmap_entries(*character_mapping)[v@[i].0] == v@[i].1
            &&& forall|k: u32|
                cmap_entries(*character_mapping).contains_key(k) ==> exists|i: int|
                    0 <= i < v@.len() && (#[trigger] v@[i]).0 == k
        },
        r is Ok <==> (cmap_present(*character_mapping) && cmap_supported(*character_mapping)),
        r matches Err(e) ==> (e == Error::MissingEncoding <==> !cmap_present(*character_mapping)),
        r matches Err(e) ==> (e == Error::UnsupportedEncoding <==> (cmap_present(
            *character_mapping,
        ) && !cmap_supported(*character_mapping))),
{
    match character_mapping.encodings.first() {
        Some(Encoding::Format0(e)) => Ok(e.mapping::<u32>().into_iter().collect()),
        Some(Encoding::Format4(e)) => Ok(e.mapping::<u32>().into_iter().collect()),
        Some(Encoding::Format6(e)) => Ok(e.mapping::<u32>().into_iter().collect()),
        Some(Encoding::Format12(e)) => Ok(e.mapping::<u32>().into_iter().collect()),
        Some(_) => Err(Error::UnsupportedEncoding),
        None => Err(Error::MissingEncoding),
    }
}

/// A read-only lookup from Unicode scalar value to glyph index.
pub struct Mapping(pub HashMap<u32, GlyphID>);

impl View for Mapping {
    type V = Map<u32, GlyphID>;

    open spec fn view(&self) -> Map<u32, GlyphID> {
        self.0@
    }
}

impl Mapping {
    /// Builds the lookup from the font's character-mapping table: the pairs
    /// of the table's first encoding, exactly. Fails when the table holds no
    /// encoding, or when the first encoding's format is not read here. The
    /// table must be internally consistent, as any table truetype's reader
    /// accepts is.
    pub fn new(character_mapping: &CharacterMapping) -> (r: Result<Mapping, Error>)
        requires
            cmap_readable(*character_mapping),
        ensures
            r matches Ok(m) ==> m@ == cmap_entries(*character_mapping),
            r is Ok <==> (cmap_present(*character_mapping) && cmap_supported(*character_mapping)),
            r matches Err(e) ==> (e == Error::MissingEncoding <==> !cmap_present(
                *character_mapping,
            )),
            r matches Err(e) ==> (e == Error::UnsupportedEncoding <==> (cmap_present(
                *character_mapping,
            ) && !cmap_supported(*character_mapping))),
    {
        let pairs = match read_encoding(character_mapping) {
            Ok(pairs) => pairs,
            Err(e) => {
                return Err(e);
            },
        };
        let ghost entries = cmap_entries(*character_mapping);
        let mut map: HashMap<u32, GlyphID> = HashMap::new();
        let mut i: usize = 0;
        while i < pairs.len()
            invariant
                i <= pairs@.len(),
                forall|j: int|
                    0 <= j < pairs@.len() ==> entries.contains_key((#[trigger] pairs@[j]).0)
                        && entries[pairs@[j].0] == pairs@[j].1,
                forall|k: u32|
                    entries.contains_key(k) ==> exists|j: int|
                        0 <= j < pairs@.len() && (#[trigger] pairs@[j]).0 == k,
                forall|k: u32|
                    map@.contains_key(k) ==> exists|j: int|
                        0 <= j < i && (#[trigger] pairs@[j]).0 == k,
                forall|j: int| 0 <= j < i ==> map@.contains_key((#[trigger] pairs@[j]).0),
                forall|k: u32| #[trigger]
                    map@.contains_key(k) ==> entries.contains_key(k) && map@[k] == entries[k],
            decreases pairs@.len() - i,
        {
            let pair = pairs[i];
            map.insert(pair.0, pair.1);
            i = i + 1;
        }
        proof {
            assert(map@ =~= entries);
        }
        Ok(Mapping(map))
    }

    /// Resolves a character to its glyph index; absent when the font does
    /// not map the character, which is routine, not an error.
    pub fn find(&self, character: char) -> (r: Option<GlyphID>)
        ensures
            r == if self@.contains_key(character as u32) {
                Some(self@[character as u32])
            } else {
                None::<GlyphID>
            },
    {
        match self.0.get(&(character as u32)) {
            Some(glyph_id) => Some(*glyph_id),
            None => None,
        }
    }
}

} // verus!
