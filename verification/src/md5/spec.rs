//! The mathematical model of MD5 that the executable code is proved against.
use vstd::prelude::*;

use super::types::{rotl32, Regs};

verus! {

/// The auxiliary function F of the first round.
pub open spec fn fun_f(x: u32, y: u32, z: u32) -> u32 {
    (x & y) | (!x & z)
}

/// The auxiliary function G of the second round.
pub open spec fn fun_g(x: u32, y: u32, z: u32) -> u32 {
    (x & z) | (y & !z)
}

/// The auxiliary function H of the third round.
pub open spec fn fun_h(x: u32, y: u32, z: u32) -> u32 {
    x ^ y ^ z
}

/// The auxiliary function I of the fourth round.
pub open spec fn fun_i(x: u32, y: u32, z: u32) -> u32 {
    y ^ (x | !z)
}

/// The auxiliary function used by step `i` (0-based) of the 64 steps.
pub open spec fn round_fun(i: int, x: u32, y: u32, z: u32) -> u32 {
    if i < 16 {
        fun_f(x, y, z)
    } else if i < 32 {
        fun_g(x, y, z)
    } else if i < 48 {
        fun_h(x, y, z)
    } else {
        fun_i(x, y, z)
    }
}

/// The index of the message word that step `i` reads.
pub open spec fn msg_index(i: int) -> int {
    if i < 16 {
        i
    } else if i < 32 {
        (5 * i + 1) % 16
    } else if i < 48 {
        (3 * i + 5) % 16
    } else {
        (7 * i) % 16
    }
}

/// The rotation amount of step `i`.
pub open spec fn shift_amount(i: int) -> u32 {
    let r = i % 4;
    if i < 16 {
        if r == 0 { 7 } else if r == 1 { 12 } else if r == 2 { 17 } else { 22 }
    } else if i < 32 {
        if r == 0 { 5 } else if r == 1 { 9 } else if r == 2 { 14 } else { 20 }
    } else if i < 48 {
        if r == 0 { 4 } else if r == 1 { 11 } else if r == 2 { 16 } else { 23 }
    } else {
        if r == 0 { 6 } else if r == 1 { 10 } else if r == 2 { 15 } else { 21 }
    }
}

/// Entry `i` (0-based) of the table T: the integer part of
/// 4294967296 * abs(sin(i + 1)), with the values of RFC 1321's appendix.
pub open spec fn sine_const(i: int) -> u32 {
    if i < 32 {
        if i < 16 {
            if i == 0 { 0xd76aa478 } else if i == 1 { 0xe8c7b756 } else if i == 2 { 0x242070db }
            else if i == 3 { 0xc1bdceee } else if i == 4 { 0xf57c0faf } else if i == 5 { 0x4787c62a }
            else if i == 6 { 0xa8304613 } else if i == 7 { 0xfd469501 } else if i == 8 { 0x698098d8 }
            else if i == 9 { 0x8b44f7af } else if i == 10 { 0xffff5bb1 } else if i == 11 { 0x895cd7be }
            else if i == 12 { 0x6b901122 } else if i == 13 { 0xfd987193 } else if i == 14 { 0xa679438e }
            else { 0x49b40821 }
        } else {
            if i == 16 { 0xf61e2562 } else if i == 17 { 0xc040b340 } else if i == 18 { 0x265e5a51 }
            else if i == 19 { 0xe9b6c7aa } else if i == 20 { 0xd62f105d } else if i == 21 { 0x02441453 }
            else if i == 22 { 0xd8a1e681 } else if i == 23 { 0xe7d3fbc8 } else if i == 24 { 0x21e1cde6 }
            else if i == 25 { 0xc33707d6 } else if i == 26 { 0xf4d50d87 } else if i == 27 { 0x455a14ed }
            else if i == 28 { 0xa9e3e905 } else if i == 29 { 0xfcefa3f8 } else if i == 30 { 0x676f02d9 }
            else { 0x8d2a4c8a }
        }
    } else {
        if i < 48 {
            if i == 32 { 0xfffa3942 } else if i == 33 { 0x8771f681 } else if i == 34 { 0x6d9d6122 }
            else if i == 35 { 0xfde5380c } else if i == 36 { 0xa4beea44 } else if i == 37 { 0x4bdecfa9 }
            else if i == 38 { 0xf6bb4b60 } else if i == 39 { 0xbebfbc70 } else if i == 40 { 0x289b7ec6 }
            else if i == 41 { 0xeaa127fa } else if i == 42 { 0xd4ef3085 } else if i == 43 { 0x04881d05 }
            else if i == 44 { 0xd9d4d039 } else if i == 45 { 0xe6db99e5 } else if i == 46 { 0x1fa27cf8 }
            else { 0xc4ac5665 }
        } else {
            if i == 48 { 0xf4292244 } else if i == 49 { 0x432aff97 } else if i == 50 { 0xab9423a7 }
            else if i == 51 { 0xfc93a039 } else if i == 52 { 0x655b59c3 } else if i == 53 { 0x8f0ccc92 }
            else if i == 54 { 0xffeff47d } else if i == 55 { 0x85845dd1 } else if i == 56 { 0x6fa87e4f }
            else if i == 57 { 0xfe2ce6e0 } else if i == 58 { 0xa3014314 } else if i == 59 { 0x4e0811a1 }
            else if i == 60 { 0xf7537e82 } else if i == 61 { 0xbd3af235 } else if i == 62 { 0x2ad7d2bb }
            else { 0xeb86d391 }
        }
    }
}

/// One of the 64 steps, on registers `(A, B, C, D)`:
/// `A = B + ((A + fun(B, C, D) + X[k] + T[i]) <<< s)`, after which the
/// registers are renamed so that the next step again updates the first one.
pub open spec fn step(r: Regs, i: int, x: Seq<u32>) -> Regs {
    let sum = r.0.wrapping_add(round_fun(i, r.1, r.2, r.3)).wrapping_add(x[msg_index(i)]).wrapping_add(
        sine_const(i),
    );
    (r.3, r.1.wrapping_add(rotl32(sum, shift_amount(i))), r.1, r.2)
}

/// Steps `from .. to` applied in order to `r`.
pub open spec fn run_steps(r: Regs, x: Seq<u32>, from: int, to: int) -> Regs
    decreases to - from,
{
    if to <= from {
        r
    } else {
        step(run_steps(r, x, from, to - 1), to - 1, x)
    }
}

/// The compression of one block of 16 words: the 64 steps, then the sum
/// with the registers the block started from.
pub open spec fn compress(r: Regs, x: Seq<u32>) -> Regs {
    let s = run_steps(r, x, 0, 64);
    (r.0.wrapping_add(s.0), r.1.wrapping_add(s.1), r.2.wrapping_add(s.2), r.3.wrapping_add(s.3))
}

/// The initial registers A, B, C, D.
pub open spec fn init_regs() -> Regs {
    (0x67452301, 0xefcdab89, 0x98badcfe, 0x10325476)
}

/// The number of zero bytes that follow the 0x80 byte for a message of
/// `n` bytes: as few as make the length 56 modulo 64 (RFC 1321, 3.1).
pub open spec fn pad_zero_count(n: nat) -> nat {
    ((55 - n as int) % 64) as nat
}

/// The length field: the message length in bits, modulo 2^64 (RFC 1321, 3.2).
pub open spec fn length_field(n: nat) -> u64 {
    ((n * 8) % 0x1_0000_0000_0000_0000) as u64
}

/// The eight little-endian bytes of a 64-bit word.
pub open spec fn u64_le_bytes(v: u64) -> Seq<u8> {
    Seq::new(8, |j: int| ((v >> (8 * j) as u64) & 0xff) as u8)
}

/// The four little-endian bytes of a 32-bit word.
pub open spec fn u32_le_bytes(v: u32) -> Seq<u8> {
    seq![(v & 0xff) as u8, ((v >> 8) & 0xff) as u8, ((v >> 16) & 0xff) as u8, ((v >> 24) & 0xff) as u8]
}

/// The padded message of RFC 1321 (3.1, 3.2): the message, a 0x80 byte,
/// the zero bytes and the little-endian length field.
pub open spec fn rfc1321_padded(msg: Seq<u8>) -> Seq<u8> {
    msg + seq![0x80u8] + Seq::new(pad_zero_count(msg.len()), |j: int| 0u8) + u64_le_bytes(
        length_field(msg.len()),
    )
}

/// The number of 64-byte blocks of the padded message.
pub open spec fn block_count(msg: Seq<u8>) -> nat {
    rfc1321_padded(msg).len() / 64
}

/// The little-endian word made of the four bytes of `s` from `base` on.
pub open spec fn le_word(s: Seq<u8>, base: int) -> u32 {
    (s[base] as u32) | ((s[base + 1] as u32) << 8) | ((s[base + 2] as u32) << 16) | ((s[base + 3] as u32) << 24)
}

/// Block `k` of the byte stream `s` as 16 little-endian words.
pub open spec fn block_words(s: Seq<u8>, k: int) -> Seq<u32> {
    Seq::new(16, |i: int| le_word(s, 64 * k + 4 * i))
}

/// The registers after compressing the blocks `from .. to` of `s`,
/// starting from `r`.
pub open spec fn compress_blocks(r: Regs, s: Seq<u8>, from: int, to: int) -> Regs
    decreases to - from,
{
    if to <= from {
        r
    } else {
        compress_blocks(compress(r, block_words(s, from)), s, from + 1, to)
    }
}

/// The registers serialised as 16 bytes, A first, each little-endian.
pub open spec fn regs_le_bytes(r: Regs) -> Seq<u8> {
    u32_le_bytes(r.0) + u32_le_bytes(r.1) + u32_le_bytes(r.2) + u32_le_bytes(r.3)
}

/// The MD5 digest of a message as RFC 1321 defines it (3.3 to 3.5): the
/// compression function over the blocks of the padded message, from the
/// initial registers, then A, B, C and D as little-endian bytes.
pub open spec fn rfc1321_digest(msg: Seq<u8>) -> Seq<u8> {
    regs_le_bytes(compress_blocks(init_regs(), rfc1321_padded(msg), 0, block_count(msg) as int))
}

} // verus!
