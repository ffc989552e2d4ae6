//! Percent-encoding of a query string.

use vstd::prelude::*;
use vstd::utf8::encode_utf8;

verus! {

/// Whether `byte` is written as it is: an ASCII letter or digit, `-`, `.`,
/// `_` or `~`.
pub open spec fn is_unreserved(byte: u8) -> bool {
    ||| 0x30 <= byte <= 0x39
    ||| 0x41 <= byte <= 0x5a
    ||| 0x61 <= byte <= 0x7a
    ||| byte == 0x2d
    ||| byte == 0x2e
    ||| byte == 0x5f
    ||| byte == 0x7e
}

/// The upper-case hexadecimal digit for `nibble`, which is below 16.
pub open spec fn hex_digit(nibble: u8) -> char {
    if nibble < 10 {
        (0x30 + nibble) as char
    } else {
        (0x41 + nibble - 10) as char
    }
}

/// One byte encoded: itself if it is unreserved, else `%` and its two
/// hexadecimal digits.
pub open spec fn encode_byte(byte: u8) -> Seq<char> {
    if is_unreserved(byte) {
        seq![byte as char]
    } else {
        seq!['%', hex_digit(byte / 16), hex_digit(byte % 16)]
    }
}

/// The bytes encoded one after the other.
pub open spec fn percent_encode(bytes: Seq<u8>) -> Seq<char>
    decreases bytes.len(),
{
    if bytes.len() == 0 {
        Seq::empty()
    } else {
        percent_encode(bytes.drop_last()) + encode_byte(bytes.last())
    }
}

/// Calls `urlencoding::encode`, which walks the UTF-8 bytes of `text`,
/// copies the unreserved ones and writes every other byte as `%` and two
/// upper-case hexadecimal digits.
#[verifier::external_body]
pub(crate) fn encode(text: &str) -> (encoded: String)
    ensures
        encoded@ == percent_encode(encode_utf8(text@)),
{
    urlencoding::encode(text).into_owned()
}

} // verus!
