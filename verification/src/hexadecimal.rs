//! Hexadecimal text and the bytes it stands for.

use hex::FromHex;
use vstd::prelude::*;

verus! {

/// The number a hexadecimal digit stands for; `None` for any other character.
pub open spec fn digit_value(c: char) -> Option<int> {
    if '0' <= c && c <= '9' {
        Some(c as int - '0' as int)
    } else if 'a' <= c && c <= 'f' {
        Some(c as int - 'a' as int + 10)
    } else if 'A' <= c && c <= 'F' {
        Some(c as int - 'A' as int + 10)
    } else {
        None
    }
}

/// Text of even length made of hexadecimal digits only, in either case.
pub open spec fn is_hex(text: Seq<char>) -> bool {
    &&& text.len() % 2 == 0
    &&& forall|i: int| 0 <= i < text.len() ==> (#[trigger] digit_value(text[i])) is Some
}

/// The byte written by the pair of digits at positions `2 * i` and `2 * i + 1`.
pub open spec fn byte_at(text: Seq<char>, i: int) -> u8 {
    (16 * digit_value(text[2 * i])->0 + digit_value(text[2 * i + 1])->0) as u8
}

/// The bytes that `text` stands for, or `None` where it is not hexadecimal.
pub open spec fn decoded(text: Seq<char>) -> Option<Seq<u8>> {
    if is_hex(text) {
        Some(Seq::new(text.len() / 2, |i: int| byte_at(text, i)))
    } else {
        None
    }
}

/// The lower-case digit that stands for `n`, for `0 <= n < 16`.
pub open spec fn digit_char(n: int) -> char {
    seq!['0', '1', '2', '3', '4', '5', '6', '7', '8', '9', 'a', 'b', 'c', 'd', 'e', 'f'][n]
}

/// The lower-case hexadecimal text of `bytes`: two digits a byte, high digit
/// first.
pub open spec fn encoded(bytes: Seq<u8>) -> Seq<char> {
    Seq::new(
        2 * bytes.len(),
        |i: int| if i % 2 == 0 {
            digit_char(bytes[i / 2] as int / 16)
        } else {
            digit_char(bytes[i / 2] as int % 16)
        },
    )
}

/// Every lower-case digit stands for the number it was chosen for.
pub proof fn lemma_digit_round_trip(n: int)
    requires
        0 <= n < 16,
    ensures
        digit_value(digit_char(n)) == Some(n),
{
}

/// Decoding the hexadecimal text of any bytes gives those bytes back.
pub proof fn lemma_decoded_encoded(bytes: Seq<u8>)
    ensures
        is_hex(encoded(bytes)),
        decoded(encoded(bytes)) == Some(bytes),
{
    let text = encoded(bytes);
    assert forall|i: int| 0 <= i < text.len() implies (#[trigger] digit_value(text[i])) is Some by {
        let b = bytes[i / 2] as int;
        if i % 2 == 0 {
            lemma_digit_round_trip(b / 16);
        } else {
            lemma_digit_round_trip(b % 16);
        }
    }
    assert(is_hex(text));
    let back = Seq::new(text.len() / 2, |i: int| byte_at(text, i));
    assert forall|i: int| 0 <= i < bytes.len() implies back[i] == bytes[i] by {
        let b = bytes[i] as int;
        lemma_digit_round_trip(b / 16);
        lemma_digit_round_trip(b % 16);
        assert((2 * i) / 2 == i && (2 * i) % 2 == 0);
        assert((2 * i + 1) / 2 == i && (2 * i + 1) % 2 == 1);
        assert(text[2 * i] == digit_char(b / 16));
        assert(text[2 * i + 1] == digit_char(b % 16));
        assert(16 * (b / 16) + b % 16 == b);
    }
    assert(back =~= bytes);
}

/// Calls `hex::FromHex::from_hex` for `Vec<u8>` and drops the error's detail.
///
/// Trusted: the call succeeds exactly on text of even length whose characters
/// are all hexadecimal digits, upper or lower case, and each pair of digits
/// then gives one byte, high digit first.
#[verifier::external_body]
pub(crate) fn from_hex(text: &str) -> (bytes: Option<Vec<u8>>)
    ensures
        match bytes {
            Some(v) => decoded(text@) == Some(v@),
            None => decoded(text@) is None,
        },
{
    Vec::from_hex(text).ok()
}

} // verus!
