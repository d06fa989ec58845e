//! The binary and textual encodings that the chain uses, as far as the
//! library reads or writes them.

use std::collections::BTreeMap;
use borsh::BorshDeserialize;
use vstd::prelude::*;
use crate::text::{optional_text, pairs_view};

verus! {

/// The values of an optional list of pairs of texts.
pub open spec fn optional_pairs_view(pairs: Option<Vec<(String, String)>>) -> Option<
    Seq<(Seq<char>, Seq<char>)>,
> {
    match pairs {
        Some(pairs) => Some(pairs_view(pairs@)),
        None => None,
    }
}

/// What bytes decode to as a map from texts to texts in the Borsh encoding:
/// the entries of the map in the order of their keys, or nothing where the
/// bytes are no such encoding.
pub uninterp spec fn borsh_string_map(bytes: Seq<u8>) -> Option<Seq<(Seq<char>, Seq<char>)>>;

/// `borsh::BorshDeserialize::try_from_slice` for `BTreeMap<String, String>`:
/// the entries that the bytes decode to, in the order in which the map holds
/// them. The result depends on the bytes alone.
#[verifier::external_body]
pub(crate) fn decode_string_map(bytes: &[u8]) -> (r: Option<Vec<(String, String)>>)
    ensures
        optional_pairs_view(r) == borsh_string_map(bytes@),
{
    BTreeMap::<String, String>::try_from_slice(bytes).ok().map(|map| map.into_iter().collect())
}

/// The JSON text, indented, of the map that the entries make up, or nothing
/// where they cannot be written as JSON.
pub uninterp spec fn json_pretty_text(entries: Seq<(Seq<char>, Seq<char>)>) -> Option<Seq<char>>;

/// `serde_json::to_string_pretty` for a map from texts to texts: the entries
/// are put into a map, and the map is written as indented JSON. The result
/// depends on the entries alone.
#[verifier::external_body]
pub(crate) fn json_pretty(entries: &Vec<(String, String)>) -> (r: Option<String>)
    ensures
        optional_text(r) == json_pretty_text(pairs_view(entries@)),
{
    let map: BTreeMap<&String, &String> = entries.iter().map(|entry| (&entry.0, &entry.1)).collect();
    serde_json::to_string_pretty(&map).ok()
}

/// The entries that were decoded, or no entries where nothing was decoded.
pub open spec fn entries_or_none(decoded: Option<Seq<(Seq<char>, Seq<char>)>>) -> Seq<
    (Seq<char>, Seq<char>),
> {
    match decoded {
        Some(entries) => entries,
        None => Seq::empty(),
    }
}

/// The text that was written, or the empty text where nothing was written.
pub open spec fn text_or_none(written: Option<Seq<char>>) -> Seq<char> {
    match written {
        Some(text) => text,
        None => Seq::empty(),
    }
}

/// The entries that were decoded, or no entries where nothing was decoded.
pub fn entries_or_empty(decoded: Option<Vec<(String, String)>>) -> (r: Vec<(String, String)>)
    ensures
        pairs_view(r@) == entries_or_none(optional_pairs_view(decoded)),
{
    match decoded {
        Some(entries) => entries,
        None => {
            let empty: Vec<(String, String)> = Vec::new();
            assert(pairs_view(empty@) =~= Seq::<(Seq<char>, Seq<char>)>::empty());
            empty
        },
    }
}

/// The text that was written, or the empty text where nothing was written.
pub fn text_or_empty(written: Option<String>) -> (r: String)
    ensures
        r@ == text_or_none(optional_text(written)),
{
    match written {
        Some(text) => text,
        None => String::new(),
    }
}

/// The number that eight bytes denote, the lowest byte first.
pub open spec fn le_u64(bytes: Seq<u8>) -> nat
    recommends
        bytes.len() == 8,
{
    (bytes[0] as nat) + (bytes[1] as nat) * 0x100 + (bytes[2] as nat) * 0x1_0000 + (bytes[3] as nat)
        * 0x100_0000 + (bytes[4] as nat) * 0x1_0000_0000 + (bytes[5] as nat) * 0x100_0000_0000 + (
    bytes[6] as nat) * 0x1_0000_0000_0000 + (bytes[7] as nat) * 0x100_0000_0000_0000
}

/// What bytes decode to as a `u64` in the Borsh encoding: exactly eight
/// bytes, the lowest first.
pub open spec fn borsh_u64(bytes: Seq<u8>) -> Option<u64> {
    if bytes.len() == 8 {
        Some(le_u64(bytes) as u64)
    } else {
        None
    }
}

/// `borsh::BorshDeserialize::try_from_slice` for `u64`: it succeeds on
/// exactly eight bytes and reads them as a number, the lowest byte first.
#[verifier::external_body]
pub(crate) fn decode_u64(bytes: &[u8]) -> (r: Option<u64>)
    ensures
        r == borsh_u64(bytes@),
{
    u64::try_from_slice(bytes).ok()
}

} // verus!
