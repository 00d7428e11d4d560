//! Percent-encoding of query text.
//!
//! User-supplied search text goes into a URI query string, so every byte
//! outside the unreserved set must be written as `%XX` with uppercase hex
//! digits before concatenation; unreserved bytes pass through unchanged.

use vstd::prelude::*;
use vstd::string::StringSliceAdditionalSpecFns;

verus! {

/// The unreserved bytes, which must not be encoded: ASCII letters,
/// digits, `-`, `_`, `.` and `~`.
pub open spec fn spec_is_unreserved(b: u8) -> bool {
    (0x41 <= b && b <= 0x5A)  // A-Z
     || (0x61 <= b && b <= 0x7A)  // a-z
     || (0x30 <= b && b <= 0x39)  // 0-9
     || b == 0x2D  // -
     || b == 0x5F  // _
     || b == 0x2E  // .
     || b == 0x7E  // ~

}

/// The uppercase hex digit for a value below 16.
pub open spec fn spec_hex_digit(n: u8) -> char
    recommends
        n < 16,
{
    if n < 10 {
        ((n + 0x30) as u8) as char
    } else {
        ((n + 0x37) as u8) as char
    }
}

/// What one byte contributes to the encoded output: itself if
/// unreserved, `%XX` otherwise.
pub open spec fn spec_encode_byte(b: u8) -> Seq<char> {
    if spec_is_unreserved(b) {
        seq![b as char]
    } else {
        seq!['%', spec_hex_digit(b / 16), spec_hex_digit(b % 16)]
    }
}

/// The percent-encoding of a byte sequence: each byte's contribution,
/// in order.
pub open spec fn spec_percent_encode(bytes: Seq<u8>) -> Seq<char>
    decreases bytes.len(),
{
    if bytes.len() == 0 {
        Seq::empty()
    } else {
        spec_percent_encode(bytes.drop_last()) + spec_encode_byte(bytes.last())
    }
}

/// Relies on `String::push`: appends exactly one character.
#[verifier::external_body]
pub(crate) fn push_char(s: &mut String, c: char)
    ensures
        final(s)@ == old(s)@ + seq![c],
{
    s.push(c)
}

fn hex_digit(n: u8) -> (c: char)
    requires
        n < 16,
    ensures
        c == spec_hex_digit(n),
{
    if n < 10 {
        (n + 0x30) as char
    } else {
        (n + 0x37) as char
    }
}

/// Percent-encode the UTF-8 bytes of `from`.
pub fn percent_encode(from: &str) -> (res: String)
    ensures
        res@ == spec_percent_encode(from.spec_bytes()),
{
    let bytes = from.as_bytes();
    let mut res = String::new();
    let mut i: usize = 0;
    while i < bytes.len()
        invariant
            i <= bytes@.len(),
            bytes@ == from.spec_bytes(),
            res@ == spec_percent_encode(bytes@.take(i as int)),
        decreases bytes@.len() - i,
    {
        let b = bytes[i];
        if (0x41 <= b && b <= 0x5A) || (0x61 <= b && b <= 0x7A) || (0x30 <= b && b <= 0x39)
            || b == 0x2D || b == 0x5F || b == 0x2E || b == 0x7E {
            push_char(&mut res, b as char);
        } else {
            push_char(&mut res, '%');
            push_char(&mut res, hex_digit(b / 16));
            push_char(&mut res, hex_digit(b % 16));
        }
        proof {
            assert(bytes@.take(i + 1).drop_last() =~= bytes@.take(i as int));
            assert(bytes@.take(i + 1).last() == bytes@[i as int]);
        }
        i = i + 1;
    }
    proof {
        assert(bytes@.take(bytes@.len() as int) =~= bytes@);
    }
    res
}

/// A string of unreserved bytes passes through percent-encoding
/// unchanged, character for character.
pub proof fn lemma_unreserved_identity(bytes: Seq<u8>)
    requires
        forall|i: int| 0 <= i < bytes.len() ==> spec_is_unreserved(#[trigger] bytes[i]),
    ensures
        spec_percent_encode(bytes) =~= Seq::new(bytes.len(), |i: int| bytes[i] as char),
    decreases bytes.len(),
{
    if bytes.len() > 0 {
        lemma_unreserved_identity(bytes.drop_last());
    }
}

/// True of the characters `0`–`9` and `A`–`F`.
pub open spec fn spec_is_upper_hex(c: char) -> bool {
    ('0' <= c && c <= '9') || ('A' <= c && c <= 'F')
}

/// A byte outside the unreserved set contributes exactly `%` followed by
/// its two uppercase hex digits, high nibble first.
pub proof fn lemma_encode_byte_escaped(b: u8)
    requires
        !spec_is_unreserved(b),
    ensures
        spec_encode_byte(b).len() == 3,
        spec_encode_byte(b)[0] == '%',
        spec_encode_byte(b)[1] == spec_hex_digit(b / 16),
        spec_encode_byte(b)[2] == spec_hex_digit(b % 16),
        spec_is_upper_hex(spec_encode_byte(b)[1]),
        spec_is_upper_hex(spec_encode_byte(b)[2]),
{
}

} // verus!
