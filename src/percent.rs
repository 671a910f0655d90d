//! Percent-encoding of query components.
use vstd::prelude::*;
use vstd::utf8::encode_utf8;

verus! {

/// The bytes that stand for themselves in an encoded component.
pub open spec fn is_unreserved(b: u8) -> bool {
    (0x30 <= b <= 0x39) || (0x41 <= b <= 0x5a) || (0x61 <= b <= 0x7a) || b == 0x2d || b == 0x2e
        || b == 0x5f || b == 0x7e
}

/// The upper-case hexadecimal digit for `d < 16`.
pub open spec fn hex_digit(d: u8) -> char {
    if d < 10 {
        (0x30 + d) as char
    } else {
        (0x41 + d - 10) as char
    }
}

/// What one byte becomes: itself if unreserved, else `%` and two digits.
pub open spec fn percent_encode_byte(b: u8) -> Seq<char> {
    if is_unreserved(b) {
        seq![b as char]
    } else {
        seq!['%', hex_digit(b / 16), hex_digit(b % 16)]
    }
}

/// The encoded form of a UTF-8 byte sequence, byte by byte.
pub open spec fn percent_encoded(bytes: Seq<u8>) -> Seq<char>
    decreases bytes.len(),
{
    if bytes.len() == 0 {
        Seq::empty()
    } else {
        percent_encoded(bytes.drop_last()) + percent_encode_byte(bytes.last())
    }
}

/// Relies on `url::encode` (package url-utils): every byte of the UTF-8 text
/// outside `0-9 A-Z a-z - . _ ~` becomes `%` and two upper-case hexadecimal
/// digits, the others are kept; the function never returns its error.
#[verifier::external_body]
fn url_encode(s: &str) -> (r: Result<String, String>)
    ensures
        r is Ok,
        r is Ok ==> r->Ok_0@ == percent_encoded(encode_utf8(s@)),
{
    match url::encode(s) {
        Ok(encoded) => Ok(encoded.into_owned()),
        Err(e) => Err(e.into_owned()),
    }
}

/// The percent-encoded form of `s`, each character encoded exactly once.
pub fn encode_component(s: &str) -> (r: String)
    ensures
        r@ == percent_encoded(encode_utf8(s@)),
{
    match url_encode(s) {
        Ok(e) => e,
        Err(_) => String::new(),
    }
}

} // verus!
