use vstd::prelude::*;

use vstd::bytes::{lemma_auto_spec_u32_to_from_le_bytes, spec_u32_from_le_bytes, spec_u32_to_le_bytes, u32_from_le_bytes, u32_to_le_bytes};
use vstd::slice::{slice_subrange, slice_to_vec};
use vstd::utf8::{decode_utf8, encode_utf8, valid_utf8};

verus! {

broadcast use vstd::utf8::group_utf8_lib;

/// Relies on std's `String::from_utf8`: it accepts exactly the valid UTF-8
/// byte strings, and the string holds the characters they encode.
#[verifier::external_body]
fn string_from_utf8(b: Vec<u8>) -> (r: Option<String>)
    ensures
        r is Some <==> valid_utf8(b@),
        r matches Some(s) ==> s@ == decode_utf8(b@),
{
    String::from_utf8(b).ok()
}

/// A string as a four-byte little-endian length and its UTF-8 bytes.
pub open spec fn text_bytes(s: Seq<char>) -> Seq<u8> {
    spec_u32_to_le_bytes(encode_utf8(s).len() as u32) + encode_utf8(s)
}

/// Whether a string's encoding fits a four-byte length.
pub open spec fn text_fits(s: Seq<char>) -> bool {
    encode_utf8(s).len() <= u32::MAX
}

/// The string encoded at `at` in `d`, and where it ends.
pub open spec fn text_at(d: Seq<u8>, at: int) -> Option<(Seq<char>, int)> {
    if 0 <= at && at + 4 <= d.len() {
        let n = spec_u32_from_le_bytes(d.subrange(at, at + 4)) as int;
        if at + 4 + n <= d.len() && valid_utf8(d.subrange(at + 4, at + 4 + n)) {
            Some((decode_utf8(d.subrange(at + 4, at + 4 + n)), at + 4 + n))
        } else {
            None
        }
    } else {
        None
    }
}

/// Encodes a string, or `None` where it is too long for its length prefix.
pub fn encode_text(s: &String) -> (r: Option<Vec<u8>>)
    ensures
        r is Some <==> text_fits(s@),
        r matches Some(b) ==> b@ == text_bytes(s@),
{
    let bytes = slice_to_vec(s.as_str().as_bytes());
    assert(bytes@ == encode_utf8(s@));
    if bytes.len() > u32::MAX as usize {
        return None;
    }
    let mut out = u32_to_le_bytes(bytes.len() as u32);
    let mut rest = bytes;
    out.append(&mut rest);
    Some(out)
}

/// Decodes the string at `at`, and where it ends.
pub fn decode_text(d: &[u8], at: usize) -> (r: Option<(String, usize)>)
    ensures
        match r {
            Some((s, end)) => text_at(d@, at as int) == Some((s@, end as int)),
            None => text_at(d@, at as int) is None,
        },
{
    let len = d.len();
    if at > len || len - at < 4 {
        return None;
    }
    let n = u32_from_le_bytes(slice_subrange(d, at, at + 4)) as usize;
    if len - at - 4 < n {
        return None;
    }
    let bytes = slice_to_vec(slice_subrange(d, at + 4, at + 4 + n));
    match string_from_utf8(bytes) {
        None => None,
        Some(s) => Some((s, at + 4 + n)),
    }
}

/// Decoding an encoded string, wherever it stands, gives it back.
pub proof fn lemma_text_round_trip(prefix: Seq<u8>, s: Seq<char>, suffix: Seq<u8>)
    requires
        text_fits(s),
    ensures
        text_at(prefix + text_bytes(s) + suffix, prefix.len() as int) == Some(
            (s, (prefix.len() + text_bytes(s).len()) as int),
        ),
{
    lemma_auto_spec_u32_to_from_le_bytes();
    let d = prefix + text_bytes(s) + suffix;
    let at = prefix.len() as int;
    let e = encode_utf8(s);
    assert(d.subrange(at, at + 4) =~= spec_u32_to_le_bytes(e.len() as u32));
    assert(d.subrange(at + 4, at + 4 + e.len()) =~= e);
}

} // verus!
