//! Track identifiers: decoding the bytes read from the player, and deciding
//! whether an identifier denotes an advertisement.
use vstd::prelude::*;
use vstd::string::StringSliceAdditionalSpecFns;
use vstd::utf8::{
    decode_utf8, decode_utf8_encode_utf8, encode_utf8, is_ascii_chars, is_ascii_chars_encode_utf8,
    valid_utf8,
};
use crate::text::{contains_bytes, find_bytes, occurs_at};

verus! {

/// Number of bytes of the identifier window read from the player's memory.
pub const TRACK_LEN: usize = 10;

/// Why no identifier could be had for the current tick.
#[derive(Clone, Copy, Debug, PartialEq, Eq, Structural)]
pub enum TrackError {
    /// The player's memory or automation surface could not be read.
    Unreadable,
    /// The bytes read are not valid UTF-8.
    Malformed,
}

/// The advertisement sentinel `spotify:ad`, as bytes.
pub open spec fn ad_sentinel_spec() -> Seq<u8> {
    seq![0x73u8, 0x70, 0x6F, 0x74, 0x69, 0x66, 0x79, 0x3A, 0x61, 0x64]
}

/// An identifier denotes an advertisement when it holds the sentinel.
pub open spec fn is_ad_spec(track: Seq<char>) -> bool {
    contains_bytes(encode_utf8(track), ad_sentinel_spec())
}

pub fn ad_sentinel() -> (r: Vec<u8>)
    ensures
        r@ == ad_sentinel_spec(),
{
    let r: Vec<u8> = vec![0x73u8, 0x70, 0x6F, 0x74, 0x69, 0x66, 0x79, 0x3A, 0x61, 0x64];
    assert(r@ =~= ad_sentinel_spec());
    r
}

/// Relies on std::str::from_utf8: `Ok` exactly when the bytes are valid UTF-8,
/// and then the text they encode.
#[verifier::external_body]
fn utf8_text(bytes: &[u8]) -> (r: Option<String>)
    ensures
        r.is_some() == valid_utf8(bytes@),
        r matches Some(s) ==> s@ == decode_utf8(bytes@),
{
    std::str::from_utf8(bytes).ok().map(|s| s.to_owned())
}

/// Decodes the bytes read from the player into a track identifier.
pub fn decode_track(data: &[u8]) -> (r: Result<String, TrackError>)
    ensures
        match r {
            Ok(s) => valid_utf8(data@) && s@ == decode_utf8(data@) && encode_utf8(s@) == data@,
            Err(e) => e == TrackError::Malformed && !valid_utf8(data@),
        },
{
    match utf8_text(data) {
        Some(s) => {
            proof {
                decode_utf8_encode_utf8(data@);
            }
            Ok(s)
        },
        None => Err(TrackError::Malformed),
    }
}

/// Whether a track identifier denotes an advertisement: it equals or contains
/// the sentinel `spotify:ad`.
pub fn is_ad_track(track: &str) -> (r: bool)
    ensures
        r == is_ad_spec(track@),
{
    let sentinel = ad_sentinel();
    find_bytes(track.as_bytes(), sentinel.as_slice()).is_some()
}

proof fn lemma_encode_concat(a: Seq<char>, b: Seq<char>)
    ensures
        encode_utf8(a + b) == encode_utf8(a) + encode_utf8(b),
    decreases a.len(),
{
    if a.len() > 0 {
        assert((a + b).drop_first() =~= a.drop_first() + b);
        lemma_encode_concat(a.drop_first(), b);
        assert(encode_utf8(a + b) =~= encode_utf8(a) + encode_utf8(b));
    } else {
        assert(a + b =~= b);
        assert(encode_utf8(a) + encode_utf8(b) =~= encode_utf8(b));
    }
}

proof fn lemma_sentinel_text()
    ensures
        encode_utf8("spotify:ad"@) == ad_sentinel_spec(),
{
    reveal_strlit("spotify:ad");
    let c = "spotify:ad"@;
    assert(is_ascii_chars(c));
    is_ascii_chars_encode_utf8(c);
    assert(encode_utf8(c) =~= ad_sentinel_spec());
}

/// The sentinel `spotify:ad` is an advertisement, and so is every identifier
/// that holds it.
pub proof fn law_holding_sentinel_is_ad(before: Seq<char>, after: Seq<char>)
    ensures
        is_ad_spec("spotify:ad"@),
        is_ad_spec(before + "spotify:ad"@ + after),
{
    let sentinel = ad_sentinel_spec();
    lemma_sentinel_text();
    lemma_encode_concat(before, "spotify:ad"@);
    lemma_encode_concat(before + "spotify:ad"@, after);
    let whole = encode_utf8(before) + sentinel + encode_utf8(after);
    assert(encode_utf8(before + "spotify:ad"@ + after) == whole);
    let n = sentinel.len() as int;
    let at = encode_utf8(before).len() as int;
    assert(whole.subrange(at, at + n) =~= sentinel);
    assert(occurs_at(whole, sentinel, at));
    assert(sentinel.subrange(0, n) =~= sentinel);
    assert(occurs_at(sentinel, sentinel, 0));
}

} // verus!
