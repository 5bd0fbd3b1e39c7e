//! Hexadecimal rendering of byte strings.
use vstd::prelude::*;

verus! {

/// The lower-case hexadecimal digit for `v` (which is below 16).
pub open spec fn hex_digit(v: u8) -> char {
    if v < 10 {
        (48 + v) as char
    } else {
        (87 + v) as char
    }
}

/// Two lower-case hexadecimal digits per byte, high nibble first.
pub open spec fn hex_encoding(bytes: Seq<u8>) -> Seq<char> {
    Seq::new(
        2 * bytes.len(),
        |j: int|
            if j % 2 == 0 {
                hex_digit(bytes[j / 2] >> 4)
            } else {
                hex_digit(bytes[j / 2] & 0x0f)
            },
    )
}

/// The value of a lower-case hexadecimal digit character.
pub open spec fn hex_value(c: char) -> int {
    if (c as u32) <= 57 {
        c as u32 - 48
    } else {
        c as u32 - 87
    }
}

/// Whether `c` is one of `0`-`9` or `a`-`f`.
pub open spec fn is_lower_hex_digit(c: char) -> bool {
    (48 <= (c as u32) <= 57) || (97 <= (c as u32) <= 102)
}

/// The encoding has two characters per byte, both lower-case hexadecimal
/// digits, and reading them back (high digit times 16 plus low digit)
/// gives the byte.
pub proof fn lemma_hex_encoding_decodes(bytes: Seq<u8>)
    ensures
        hex_encoding(bytes).len() == 2 * bytes.len(),
        forall|j: int|
            0 <= j < bytes.len() ==> {
                &&& is_lower_hex_digit(#[trigger] hex_encoding(bytes)[2 * j])
                &&& is_lower_hex_digit(hex_encoding(bytes)[2 * j + 1])
                &&& 16 * hex_value(hex_encoding(bytes)[2 * j]) + hex_value(
                    hex_encoding(bytes)[2 * j + 1],
                ) == bytes[j]
            },
{
    assert forall|j: int| 0 <= j < bytes.len() implies {
        &&& is_lower_hex_digit(#[trigger] hex_encoding(bytes)[2 * j])
        &&& is_lower_hex_digit(hex_encoding(bytes)[2 * j + 1])
        &&& 16 * hex_value(hex_encoding(bytes)[2 * j]) + hex_value(hex_encoding(bytes)[2 * j + 1])
            == bytes[j]
    } by {
        let b = bytes[j];
        assert((b >> 4) < 16 && (b & 0x0f) < 16 && 16 * (b >> 4) + (b & 0x0f) == b) by (bit_vector);
        assert((2 * j) % 2 == 0 && (2 * j) / 2 == j);
        assert((2 * j + 1) % 2 == 1 && (2 * j + 1) / 2 == j);
    }
}

/// `String::push` (std): appends the character `c` at the end of `s`.
#[verifier::external_body]
fn push_char(s: &mut String, c: char)
    ensures
        final(s)@ == old(s)@.push(c),
{
    s.push(c);
}

fn nibble_char(v: u8) -> (c: char)
    requires
        v < 16,
    ensures
        c == hex_digit(v),
{
    if v < 10 {
        (48u8 + v) as char
    } else {
        (87u8 + v) as char
    }
}

/// Renders `bytes` as lower-case hexadecimal, two digits per byte.
pub fn to_hex_string(bytes: &[u8]) -> (res: String)
    ensures
        res@ == hex_encoding(bytes@),
{
    let mut res = String::new();
    let n = bytes.len();
    for k in 0..n
        invariant
            n == bytes@.len(),
            res@ =~= hex_encoding(bytes@.take(k as int)),
    {
        let byte = bytes[k];
        assert(byte >> 4 < 16 && byte & 0x0f < 16) by (bit_vector);
        push_char(&mut res, nibble_char(byte >> 4));
        push_char(&mut res, nibble_char(byte & 0x0f));
        assert(bytes@.take(k as int).len() == k);
        assert(res@ =~= hex_encoding(bytes@.take(k + 1)));
    }
    assert(bytes@.take(n as int) =~= bytes@);
    res
}

} // verus!
