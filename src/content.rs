use base64::Engine;
use vstd::prelude::*;
use vstd::utf8::{decode_utf8, encode_utf8, valid_utf8};

verus! {

/// What the standard base64 engine (with padding) decodes `s` to, if `s` is
/// valid base64 text.
pub uninterp spec fn base64_standard_decoded(s: Seq<u8>) -> Option<Seq<u8>>;

/// The bytes of `s` with every line feed taken out.
pub open spec fn without_newlines(s: Seq<u8>) -> Seq<u8> {
    s.filter(|b: u8| b != 0x0Au8)
}

/// The text that a contents envelope carries in its `content` field `s`:
/// line feeds removed, base64 decoded, then read as UTF-8.
pub open spec fn decoded_text(s: Seq<char>) -> Option<Seq<char>> {
    match base64_standard_decoded(without_newlines(encode_utf8(s))) {
        Some(b) => if valid_utf8(b) {
            Some(decode_utf8(b))
        } else {
            None
        },
        None => None,
    }
}

/// Removes the line feeds that the contents API puts into its base64 text.
pub fn strip_newlines(s: &[u8]) -> (r: Vec<u8>)
    ensures
        r@ == without_newlines(s@),
{
    let mut r: Vec<u8> = Vec::new();
    let mut i: usize = 0;
    while i < s.len()
        invariant
            i <= s@.len(),
            r@ == without_newlines(s@.subrange(0, i as int)),
        decreases s@.len() - i,
    {
        proof {
            reveal_with_fuel(Seq::filter, 1);
            assert(s@.subrange(0, i as int + 1).drop_last() == s@.subrange(0, i as int));
        }
        if s[i] != 0x0Au8 {
            r.push(s[i]);
        }
        i = i + 1;
    }
    proof {
        assert(s@.subrange(0, s@.len() as int) == s@);
    }
    r
}

/// Relies on base64's `Engine::decode` with the `STANDARD` engine; its result
/// depends on the input bytes alone.
#[verifier::external_body]
fn base64_decode(s: &[u8]) -> (r: Option<Vec<u8>>)
    ensures
        match r {
            Some(b) => base64_standard_decoded(s@) == Some(b@),
            None => base64_standard_decoded(s@) is None,
        },
{
    match base64::engine::general_purpose::STANDARD.decode(s) {
        Ok(b) => Some(b),
        Err(_) => None,
    }
}

/// Relies on `String::from_utf8`: it succeeds exactly on valid UTF-8, and the
/// text is what those bytes encode.
#[verifier::external_body]
fn utf8_text(b: Vec<u8>) -> (r: Option<String>)
    ensures
        match r {
            Some(t) => valid_utf8(b@) && t@ == decode_utf8(b@),
            None => !valid_utf8(b@),
        },
{
    match String::from_utf8(b) {
        Ok(t) => Some(t),
        Err(_) => None,
    }
}

/// Decodes the `content` field of a contents envelope: `None` when it is not
/// base64, or when the decoded bytes are not UTF-8 text.
pub fn decode_content(s: &str) -> (r: Option<String>)
    ensures
        match r {
            Some(t) => decoded_text(s@) == Some(t@),
            None => decoded_text(s@) is None,
        },
{
    let joined = strip_newlines(s.as_bytes());
    match base64_decode(joined.as_slice()) {
        Some(b) => utf8_text(b),
        None => None,
    }
}

/// Encoding survives the trip: when the newline-free form of `s` is the
/// base64 encoding of the UTF-8 bytes of `text`, decoding `s` gives `text`
/// back, wherever line feeds were put into it.
pub proof fn content_round_trip(s: Seq<char>, text: Seq<char>)
    requires
        base64_standard_decoded(without_newlines(encode_utf8(s))) == Some(encode_utf8(text)),
    ensures
        decoded_text(s) == Some(text),
{
    vstd::utf8::encode_utf8_valid_utf8(text);
    vstd::utf8::encode_utf8_decode_utf8(text);
}

} // verus!
