//! Matching rules over byte strings, and the hexadecimal form of bytes.
//!
//! Scripts and addresses travel as text; a rule compares the bytes of that
//! text, so the rules are stated over `Seq<u8>`.

use vstd::prelude::*;
use vstd::utf8::{encode_utf8, encode_utf8_decode_utf8};

verus! {

/// The bytes of a text: its UTF-8 encoding.
pub open spec fn text_bytes(text: Seq<char>) -> Seq<u8> {
    encode_utf8(text)
}

/// Two texts have the same bytes exactly if they are the same text.
pub proof fn lemma_text_bytes_injective(a: Seq<char>, b: Seq<char>)
    ensures
        (text_bytes(a) == text_bytes(b)) <==> (a == b),
{
    encode_utf8_decode_utf8(a);
    encode_utf8_decode_utf8(b);
}

/// Whether `a` and `b` are the same byte string.
pub fn equals(a: &[u8], b: &[u8]) -> (same: bool)
    ensures
        same == (a@ == b@),
{
    if a.len() != b.len() {
        return false;
    }
    let mut i: usize = 0;
    while i < a.len()
        invariant
            i <= a.len(),
            a.len() == b.len(),
            forall|k: int| 0 <= k < i ==> a@[k] == b@[k],
        decreases a.len() - i,
    {
        if a[i] != b[i] {
            return false;
        }
        i += 1;
    }
    assert(a@ =~= b@);
    true
}

/// Whether `a` begins with `prefix`.
pub fn starts_with(a: &[u8], prefix: &[u8]) -> (found: bool)
    ensures
        found == prefix@.is_prefix_of(a@),
{
    if prefix.len() > a.len() {
        return false;
    }
    let mut i: usize = 0;
    while i < prefix.len()
        invariant
            i <= prefix.len(),
            prefix.len() <= a.len(),
            forall|k: int| 0 <= k < i ==> a@[k] == prefix@[k],
        decreases prefix.len() - i,
    {
        if a[i] != prefix[i] {
            return false;
        }
        i += 1;
    }
    true
}

/// Whether `a` ends with `suffix`.
pub fn ends_with(a: &[u8], suffix: &[u8]) -> (found: bool)
    ensures
        found == suffix@.is_suffix_of(a@),
{
    if suffix.len() > a.len() {
        return false;
    }
    let shift: usize = a.len() - suffix.len();
    let mut i: usize = 0;
    while i < suffix.len()
        invariant
            i <= suffix.len(),
            suffix.len() <= a.len(),
            shift == a.len() - suffix.len(),
            forall|k: int| 0 <= k < i ==> a@[shift + k] == suffix@[k],
        decreases suffix.len() - i,
    {
        if a[shift + i] != suffix[i] {
            return false;
        }
        i += 1;
    }
    true
}

/// The lower-case hexadecimal digit, as an ASCII byte, of a value below 16.
pub open spec fn hex_digit(nibble: u8) -> u8 {
    if nibble < 10 {
        (48 + nibble) as u8
    } else {
        (87 + nibble) as u8
    }
}

/// The lower-case hexadecimal text of `bytes`, two ASCII digits for each
/// byte, the high half first.
pub open spec fn hex_encoding(bytes: Seq<u8>) -> Seq<u8> {
    Seq::new(
        2 * bytes.len(),
        |i: int|
            if i % 2 == 0 {
                hex_digit(bytes[i / 2] / 16)
            } else {
                hex_digit(bytes[i / 2] % 16)
            },
    )
}

fn digit_of(nibble: u8) -> (digit: u8)
    requires
        nibble < 16,
    ensures
        digit == hex_digit(nibble),
{
    if nibble < 10 {
        48 + nibble
    } else {
        87 + nibble
    }
}

/// Writes `bytes` as lower-case hexadecimal text.
pub fn to_hex(bytes: &[u8]) -> (text: Vec<u8>)
    ensures
        text@ == hex_encoding(bytes@),
{
    let mut text: Vec<u8> = Vec::new();
    let mut i: usize = 0;
    while i < bytes.len()
        invariant
            i <= bytes.len(),
            text@ == hex_encoding(bytes@.subrange(0, i as int)),
        decreases bytes.len() - i,
    {
        let byte: u8 = bytes[i];
        text.push(digit_of(byte / 16));
        text.push(digit_of(byte % 16));
        i += 1;
    }
    text
}

} // verus!
