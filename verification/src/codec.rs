//! Binary-to-text encoding of sealed payloads (standard base64 with padding)
//! and the UTF-8 decoding of unsealed plaintext.

use rustc_serialize::base64::{FromBase64, ToBase64, STANDARD};
use vstd::prelude::*;
use vstd::utf8::{decode_utf8, valid_utf8};

verus! {

/// The 64 characters of the standard base64 alphabet, in value order.
pub open spec fn b64_alphabet() -> Seq<char> {
    seq![
        'A', 'B', 'C', 'D', 'E', 'F', 'G', 'H', 'I', 'J', 'K', 'L', 'M', 'N', 'O', 'P',
        'Q', 'R', 'S', 'T', 'U', 'V', 'W', 'X', 'Y', 'Z', 'a', 'b', 'c', 'd', 'e', 'f',
        'g', 'h', 'i', 'j', 'k', 'l', 'm', 'n', 'o', 'p', 'q', 'r', 's', 't', 'u', 'v',
        'w', 'x', 'y', 'z', '0', '1', '2', '3', '4', '5', '6', '7', '8', '9', '+', '/',
    ]
}

/// The character standing for one six-bit group.
pub open spec fn b64_char(v: int) -> char {
    b64_alphabet()[v]
}

/// Standard base64 with padding: each group of three input bytes becomes four
/// characters; a final group of one or two bytes is completed with `=`.
pub open spec fn b64_encode(bytes: Seq<u8>) -> Seq<char>
    decreases bytes.len(),
{
    if bytes.len() == 0 {
        Seq::empty()
    } else if bytes.len() == 1 {
        let n = bytes[0] as int;
        seq![b64_char(n / 4), b64_char((n % 4) * 16), '=', '=']
    } else if bytes.len() == 2 {
        let n = (bytes[0] as int) * 256 + (bytes[1] as int);
        seq![b64_char(n / 1024), b64_char((n / 16) % 64), b64_char((n % 16) * 4), '=']
    } else {
        let n = (bytes[0] as int) * 65536 + (bytes[1] as int) * 256 + (bytes[2] as int);
        seq![
            b64_char(n / 262144),
            b64_char((n / 4096) % 64),
            b64_char((n / 64) % 64),
            b64_char(n % 64),
        ] + b64_encode(bytes.skip(3))
    }
}

/// What `from_base64` returns on a given text: the decoded bytes where the
/// text is accepted as base64, `None` where it is rejected.
pub uninterp spec fn b64_decode_of(s: Seq<char>) -> Option<Seq<u8>>;

/// Relies on rustc_serialize's `ToBase64` for `[u8]` with the `STANDARD`
/// config: standard alphabet, padding, no line breaks. The second clause
/// relies on its `FromBase64`, which decodes what `ToBase64` produced back to
/// the same bytes.
#[verifier::external_body]
pub(crate) fn b64_encode_exec(bytes: &[u8]) -> (r: String)
    ensures
        r@ == b64_encode(bytes@),
        b64_decode_of(r@) == Some(bytes@),
{
    bytes.to_base64(STANDARD)
}

/// Relies on rustc_serialize's `FromBase64` for `str`: `Ok` exactly where the
/// text decodes, with the decoded bytes.
#[verifier::external_body]
pub(crate) fn b64_decode_exec(s: &str) -> (r: Option<Vec<u8>>)
    ensures
        r matches Some(d) ==> b64_decode_of(s@) == Some(d@),
        r is None ==> b64_decode_of(s@) is None,
{
    s.from_base64().ok()
}

/// Relies on `String::from_utf8`: `Ok` exactly on valid UTF-8, giving the
/// text those bytes encode.
#[verifier::external_body]
pub(crate) fn utf8_decode_exec(bytes: Vec<u8>) -> (r: Option<String>)
    ensures
        r matches Some(s) ==> valid_utf8(bytes@) && s@ == decode_utf8(bytes@),
        r is None ==> !valid_utf8(bytes@),
{
    String::from_utf8(bytes).ok()
}

} // verus!
