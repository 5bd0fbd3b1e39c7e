use byteorder::{LittleEndian, WriteBytesExt};
use core::ops::Not;
use vstd::prelude::*;

pub mod laws;
pub mod reader;
pub mod spec;
pub mod types;

use self::reader::Md5Reader;
use self::spec::{
    block_count, compress_blocks, fun_f, fun_g, fun_h, fun_i, init_regs, rfc1321_digest, rfc1321_padded,
    run_steps, sine_const, u32_le_bytes,
};
use self::types::{DigestBuffer, Regs, WrappingRotating};

verus! {

/// `byteorder::WriteBytesExt::write_u32::<LittleEndian>` on a `Vec<u8>`:
/// appends the four bytes of `value`, least significant first. The call
/// goes through `Write::write_all`, which on a `Vec<u8>` appends every byte
/// and never returns an error.
#[verifier::external_body]
fn write_u32_le(output: &mut Vec<u8>, value: u32)
    ensures
        final(output)@ == old(output)@ + u32_le_bytes(value),
{
    output.write_u32::<LittleEndian>(value).unwrap();
}

/// Computes the MD5 digest of `input` and appends its 16 bytes to
/// `output_vec`.
pub fn hash(input: &[u8], output_vec: &mut Vec<u8>)
    ensures
        final(output_vec)@ == old(output_vec)@ + rfc1321_digest(input@),
{
    let res = perform_rounds(initial_md_buffer(), Md5Reader::new(input));

    write_u32_le(output_vec, res.a.0);
    write_u32_le(output_vec, res.b.0);
    write_u32_le(output_vec, res.c.0);
    write_u32_le(output_vec, res.d.0);
    assert(output_vec@ =~= old(output_vec)@ + rfc1321_digest(input@));
}

/// The registers before the first block.
pub fn initial_md_buffer() -> (buf: DigestBuffer)
    ensures
        buf.regs() == init_regs(),
{
    DigestBuffer {
        a: WrappingRotating(0x67452301),
        b: WrappingRotating(0xefcdab89),
        c: WrappingRotating(0x98badcfe),
        d: WrappingRotating(0x10325476),
    }
}

/// F(x, y, z) = (x and y) or (not x and z).
pub fn f(x: WrappingRotating, y: WrappingRotating, z: WrappingRotating) -> (r: WrappingRotating)
    ensures
        r.0 == fun_f(x.0, y.0, z.0),
{
    (x & y) | (x.not() & z)
}

/// G(x, y, z) = (x and z) or (y and not z).
pub fn g(x: WrappingRotating, y: WrappingRotating, z: WrappingRotating) -> (r: WrappingRotating)
    ensures
        r.0 == fun_g(x.0, y.0, z.0),
{
    (x & z) | (y & z.not())
}

/// H(x, y, z) = x xor y xor z.
pub fn h(x: WrappingRotating, y: WrappingRotating, z: WrappingRotating) -> (r: WrappingRotating)
    ensures
        r.0 == fun_h(x.0, y.0, z.0),
{
    x ^ y ^ z
}

/// I(x, y, z) = y xor (x or not z).
pub fn i(x: WrappingRotating, y: WrappingRotating, z: WrappingRotating) -> (r: WrappingRotating)
    ensures
        r.0 == fun_i(x.0, y.0, z.0),
{
    y ^ (x | z.not())
}

/// The 64-entry table T: entry `i` is the integer part of
/// 4294967296 * abs(sin(i + 1)), `i + 1` in radians, as listed in the
/// appendix of RFC 1321.
pub fn build_table() -> (t: Vec<WrappingRotating>)
    ensures
        t@.len() == 64,
        forall|i: int| 0 <= i < 64 ==> (#[trigger] t@[i]).0 == sine_const(i),
{
    vec![
        WrappingRotating(0xd76aa478),
        WrappingRotating(0xe8c7b756),
        WrappingRotating(0x242070db),
        WrappingRotating(0xc1bdceee),
        WrappingRotating(0xf57c0faf),
        WrappingRotating(0x4787c62a),
        WrappingRotating(0xa8304613),
        WrappingRotating(0xfd469501),
        WrappingRotating(0x698098d8),
        WrappingRotating(0x8b44f7af),
        WrappingRotating(0xffff5bb1),
        WrappingRotating(0x895cd7be),
        WrappingRotating(0x6b901122),
        WrappingRotating(0xfd987193),
        WrappingRotating(0xa679438e),
        WrappingRotating(0x49b40821),
        WrappingRotating(0xf61e2562),
        WrappingRotating(0xc040b340),
        WrappingRotating(0x265e5a51),
        WrappingRotating(0xe9b6c7aa),
        WrappingRotating(0xd62f105d),
        WrappingRotating(0x02441453),
        WrappingRotating(0xd8a1e681),
        WrappingRotating(0xe7d3fbc8),
        WrappingRotating(0x21e1cde6),
        WrappingRotating(0xc33707d6),
        WrappingRotating(0xf4d50d87),
        WrappingRotating(0x455a14ed),
        WrappingRotating(0xa9e3e905),
        WrappingRotating(0xfcefa3f8),
        WrappingRotating(0x676f02d9),
        WrappingRotating(0x8d2a4c8a),
        WrappingRotating(0xfffa3942),
        WrappingRotating(0x8771f681),
        WrappingRotating(0x6d9d6122),
        WrappingRotating(0xfde5380c),
        WrappingRotating(0xa4beea44),
        WrappingRotating(0x4bdecfa9),
        WrappingRotating(0xf6bb4b60),
        WrappingRotating(0xbebfbc70),
        WrappingRotating(0x289b7ec6),
        WrappingRotating(0xeaa127fa),
        WrappingRotating(0xd4ef3085),
        WrappingRotating(0x04881d05),
        WrappingRotating(0xd9d4d039),
        WrappingRotating(0xe6db99e5),
        WrappingRotating(0x1fa27cf8),
        WrappingRotating(0xc4ac5665),
        WrappingRotating(0xf4292244),
        WrappingRotating(0x432aff97),
        WrappingRotating(0xab9423a7),
        WrappingRotating(0xfc93a039),
        WrappingRotating(0x655b59c3),
        WrappingRotating(0x8f0ccc92),
        WrappingRotating(0xffeff47d),
        WrappingRotating(0x85845dd1),
        WrappingRotating(0x6fa87e4f),
        WrappingRotating(0xfe2ce6e0),
        WrappingRotating(0xa3014314),
        WrappingRotating(0x4e0811a1),
        WrappingRotating(0xf7537e82),
        WrappingRotating(0xbd3af235),
        WrappingRotating(0x2ad7d2bb),
        WrappingRotating(0xeb86d391)
    ]
}

/// The registers of `r` in the order in which the steps name them once
/// `m` steps (modulo 4) have renamed them.
spec fn rotate_regs(r: Regs, m: int) -> Regs {
    if m == 0 {
        r
    } else if m == 1 {
        (r.3, r.0, r.1, r.2)
    } else if m == 2 {
        (r.2, r.3, r.0, r.1)
    } else {
        (r.1, r.2, r.3, r.0)
    }
}

/// The sixteen steps of the first round, which use `f`.
fn round1(buf: &mut DigestBuffer, x: &[u32; 16], t: &Vec<WrappingRotating>)
    requires
        t@.len() == 64,
        forall|i: int| 0 <= i < 64 ==> (#[trigger] t@[i]).0 == sine_const(i),
    ensures
        final(buf).regs() == run_steps(old(buf).regs(), x@, 0, 16),
{
    let ghost start = buf.regs();
    assert(run_steps(start, x@, 0, 0) == start);
    buf.a = buf.b + ((buf.a + f(buf.b, buf.c, buf.d) + x[0] + t[0]) << 7);
    assert(rotate_regs(buf.regs(), 1) == run_steps(start, x@, 0, 1));
    buf.d = buf.a + ((buf.d + f(buf.a, buf.b, buf.c) + x[1] + t[1]) << 12);
    assert(rotate_regs(buf.regs(), 2) == run_steps(start, x@, 0, 2));
    buf.c = buf.d + ((buf.c + f(buf.d, buf.a, buf.b) + x[2] + t[2]) << 17);
    assert(rotate_regs(buf.regs(), 3) == run_steps(start, x@, 0, 3));
    buf.b = buf.c + ((buf.b + f(buf.c, buf.d, buf.a) + x[3] + t[3]) << 22);
    assert(rotate_regs(buf.regs(), 0) == run_steps(start, x@, 0, 4));
    buf.a = buf.b + ((buf.a + f(buf.b, buf.c, buf.d) + x[4] + t[4]) << 7);
    assert(rotate_regs(buf.regs(), 1) == run_steps(start, x@, 0, 5));
    buf.d = buf.a + ((buf.d + f(buf.a, buf.b, buf.c) + x[5] + t[5]) << 12);
    assert(rotate_regs(buf.regs(), 2) == run_steps(start, x@, 0, 6));
    buf.c = buf.d + ((buf.c + f(buf.d, buf.a, buf.b) + x[6] + t[6]) << 17);
    assert(rotate_regs(buf.regs(), 3) == run_steps(start, x@, 0, 7));
    buf.b = buf.c + ((buf.b + f(buf.c, buf.d, buf.a) + x[7] + t[7]) << 22);
    assert(rotate_regs(buf.regs(), 0) == run_steps(start, x@, 0, 8));
    buf.a = buf.b + ((buf.a + f(buf.b, buf.c, buf.d) + x[8] + t[8]) << 7);
    assert(rotate_regs(buf.regs(), 1) == run_steps(start, x@, 0, 9));
    buf.d = buf.a + ((buf.d + f(buf.a, buf.b, buf.c) + x[9] + t[9]) << 12);
    assert(rotate_regs(buf.regs(), 2) == run_steps(start, x@, 0, 10));
    buf.c = buf.d + ((buf.c + f(buf.d, buf.a, buf.b) + x[10] + t[10]) << 17);
    assert(rotate_regs(buf.regs(), 3) == run_steps(start, x@, 0, 11));
    buf.b = buf.c + ((buf.b + f(buf.c, buf.d, buf.a) + x[11] + t[11]) << 22);
    assert(rotate_regs(buf.regs(), 0) == run_steps(start, x@, 0, 12));
    buf.a = buf.b + ((buf.a + f(buf.b, buf.c, buf.d) + x[12] + t[12]) << 7);
    assert(rotate_regs(buf.regs(), 1) == run_steps(start, x@, 0, 13));
    buf.d = buf.a + ((buf.d + f(buf.a, buf.b, buf.c) + x[13] + t[13]) << 12);
    assert(rotate_regs(buf.regs(), 2) == run_steps(start, x@, 0, 14));
    buf.c = buf.d + ((buf.c + f(buf.d, buf.a, buf.b) + x[14] + t[14]) << 17);
    assert(rotate_regs(buf.regs(), 3) == run_steps(start, x@, 0, 15));
    buf.b = buf.c + ((buf.b + f(buf.c, buf.d, buf.a) + x[15] + t[15]) << 22);
    assert(rotate_regs(buf.regs(), 0) == run_steps(start, x@, 0, 16));
}

/// The sixteen steps of the second round, which use `g`.
fn round2(buf: &mut DigestBuffer, x: &[u32; 16], t: &Vec<WrappingRotating>)
    requires
        t@.len() == 64,
        forall|i: int| 0 <= i < 64 ==> (#[trigger] t@[i]).0 == sine_const(i),
    ensures
        final(buf).regs() == run_steps(old(buf).regs(), x@, 16, 32),
{
    let ghost start = buf.regs();
    assert(run_steps(start, x@, 16, 16) == start);
    buf.a = buf.b + ((buf.a + g(buf.b, buf.c, buf.d) + x[1] + t[16]) << 5);
    assert(rotate_regs(buf.regs(), 1) == run_steps(start, x@, 16, 17));
    buf.d = buf.a + ((buf.d + g(buf.a, buf.b, buf.c) + x[6] + t[17]) << 9);
    assert(rotate_regs(buf.regs(), 2) == run_steps(start, x@, 16, 18));
    buf.c = buf.d + ((buf.c + g(buf.d, buf.a, buf.b) + x[11] + t[18]) << 14);
    assert(rotate_regs(buf.regs(), 3) == run_steps(start, x@, 16, 19));
    buf.b = buf.c + ((buf.b + g(buf.c, buf.d, buf.a) + x[0] + t[19]) << 20);
    assert(rotate_regs(buf.regs(), 0) == run_steps(start, x@, 16, 20));
    buf.a = buf.b + ((buf.a + g(buf.b, buf.c, buf.d) + x[5] + t[20]) << 5);
    assert(rotate_regs(buf.regs(), 1) == run_steps(start, x@, 16, 21));
    buf.d = buf.a + ((buf.d + g(buf.a, buf.b, buf.c) + x[10] + t[21]) << 9);
    assert(rotate_regs(buf.regs(), 2) == run_steps(start, x@, 16, 22));
    buf.c = buf.d + ((buf.c + g(buf.d, buf.a, buf.b) + x[15] + t[22]) << 14);
    assert(rotate_regs(buf.regs(), 3) == run_steps(start, x@, 16, 23));
    buf.b = buf.c + ((buf.b + g(buf.c, buf.d, buf.a) + x[4] + t[23]) << 20);
    assert(rotate_regs(buf.regs(), 0) == run_steps(start, x@, 16, 24));
    buf.a = buf.b + ((buf.a + g(buf.b, buf.c, buf.d) + x[9] + t[24]) << 5);
    assert(rotate_regs(buf.regs(), 1) == run_steps(start, x@, 16, 25));
    buf.d = buf.a + ((buf.d + g(buf.a, buf.b, buf.c) + x[14] + t[25]) << 9);
    assert(rotate_regs(buf.regs(), 2) == run_steps(start, x@, 16, 26));
    buf.c = buf.d + ((buf.c + g(buf.d, buf.a, buf.b) + x[3] + t[26]) << 14);
    assert(rotate_regs(buf.regs(), 3) == run_steps(start, x@, 16, 27));
    buf.b = buf.c + ((buf.b + g(buf.c, buf.d, buf.a) + x[8] + t[27]) << 20);
    assert(rotate_regs(buf.regs(), 0) == run_steps(start, x@, 16, 28));
    buf.a = buf.b + ((buf.a + g(buf.b, buf.c, buf.d) + x[13] + t[28]) << 5);
    assert(rotate_regs(buf.regs(), 1) == run_steps(start, x@, 16, 29));
    buf.d = buf.a + ((buf.d + g(buf.a, buf.b, buf.c) + x[2] + t[29]) << 9);
    assert(rotate_regs(buf.regs(), 2) == run_steps(start, x@, 16, 30));
    buf.c = buf.d + ((buf.c + g(buf.d, buf.a, buf.b) + x[7] + t[30]) << 14);
    assert(rotate_regs(buf.regs(), 3) == run_steps(start, x@, 16, 31));
    buf.b = buf.c + ((buf.b + g(buf.c, buf.d, buf.a) + x[12] + t[31]) << 20);
    assert(rotate_regs(buf.regs(), 0) == run_steps(start, x@, 16, 32));
}

/// The sixteen steps of the third round, which use `h`.
fn round3(buf: &mut DigestBuffer, x: &[u32; 16], t: &Vec<WrappingRotating>)
    requires
        t@.len() == 64,
        forall|i: int| 0 <= i < 64 ==> (#[trigger] t@[i]).0 == sine_const(i),
    ensures
        final(buf).regs() == run_steps(old(buf).regs(), x@, 32, 48),
{
    let ghost start = buf.regs();
    assert(run_steps(start, x@, 32, 32) == start);
    buf.a = buf.b + ((buf.a + h(buf.b, buf.c, buf.d) + x[5] + t[32]) << 4);
    assert(rotate_regs(buf.regs(), 1) == run_steps(start, x@, 32, 33));
    buf.d = buf.a + ((buf.d + h(buf.a, buf.b, buf.c) + x[8] + t[33]) << 11);
    assert(rotate_regs(buf.regs(), 2) == run_steps(start, x@, 32, 34));
    buf.c = buf.d + ((buf.c + h(buf.d, buf.a, buf.b) + x[11] + t[34]) << 16);
    assert(rotate_regs(buf.regs(), 3) == run_steps(start, x@, 32, 35));
    buf.b = buf.c + ((buf.b + h(buf.c, buf.d, buf.a) + x[14] + t[35]) << 23);
    assert(rotate_regs(buf.regs(), 0) == run_steps(start, x@, 32, 36));
    buf.a = buf.b + ((buf.a + h(buf.b, buf.c, buf.d) + x[1] + t[36]) << 4);
    assert(rotate_regs(buf.regs(), 1) == run_steps(start, x@, 32, 37));
    buf.d = buf.a + ((buf.d + h(buf.a, buf.b, buf.c) + x[4] + t[37]) << 11);
    assert(rotate_regs(buf.regs(), 2) == run_steps(start, x@, 32, 38));
    buf.c = buf.d + ((buf.c + h(buf.d, buf.a, buf.b) + x[7] + t[38]) << 16);
    assert(rotate_regs(buf.regs(), 3) == run_steps(start, x@, 32, 39));
    buf.b = buf.c + ((buf.b + h(buf.c, buf.d, buf.a) + x[10] + t[39]) << 23);
    assert(rotate_regs(buf.regs(), 0) == run_steps(start, x@, 32, 40));
    buf.a = buf.b + ((buf.a + h(buf.b, buf.c, buf.d) + x[13] + t[40]) << 4);
    assert(rotate_regs(buf.regs(), 1) == run_steps(start, x@, 32, 41));
    buf.d = buf.a + ((buf.d + h(buf.a, buf.b, buf.c) + x[0] + t[41]) << 11);
    assert(rotate_regs(buf.regs(), 2) == run_steps(start, x@, 32, 42));
    buf.c = buf.d + ((buf.c + h(buf.d, buf.a, buf.b) + x[3] + t[42]) << 16);
    assert(rotate_regs(buf.regs(), 3) == run_steps(start, x@, 32, 43));
    buf.b = buf.c + ((buf.b + h(buf.c, buf.d, buf.a) + x[6] + t[43]) << 23);
    assert(rotate_regs(buf.regs(), 0) == run_steps(start, x@, 32, 44));
    buf.a = buf.b + ((buf.a + h(buf.b, buf.c, buf.d) + x[9] + t[44]) << 4);
    assert(rotate_regs(buf.regs(), 1) == run_steps(start, x@, 32, 45));
    buf.d = buf.a + ((buf.d + h(buf.a, buf.b, buf.c) + x[12] + t[45]) << 11);
    assert(rotate_regs(buf.regs(), 2) == run_steps(start, x@, 32, 46));
    buf.c = buf.d + ((buf.c + h(buf.d, buf.a, buf.b) + x[15] + t[46]) << 16);
    assert(rotate_regs(buf.regs(), 3) == run_steps(start, x@, 32, 47));
    buf.b = buf.c + ((buf.b + h(buf.c, buf.d, buf.a) + x[2] + t[47]) << 23);
    assert(rotate_regs(buf.regs(), 0) == run_steps(start, x@, 32, 48));
}

/// The sixteen steps of the fourth round, which use `i`.
fn round4(buf: &mut DigestBuffer, x: &[u32; 16], t: &Vec<WrappingRotating>)
    requires
        t@.len() == 64,
        forall|i: int| 0 <= i < 64 ==> (#[trigger] t@[i]).0 == sine_const(i),
    ensures
        final(buf).regs() == run_steps(old(buf).regs(), x@, 48, 64),
{
    let ghost start = buf.regs();
    assert(run_steps(start, x@, 48, 48) == start);
    buf.a = buf.b + ((buf.a + i(buf.b, buf.c, buf.d) + x[0] + t[48]) << 6);
    assert(rotate_regs(buf.regs(), 1) == run_steps(start, x@, 48, 49));
    buf.d = buf.a + ((buf.d + i(buf.a, buf.b, buf.c) + x[7] + t[49]) << 10);
    assert(rotate_regs(buf.regs(), 2) == run_steps(start, x@, 48, 50));
    buf.c = buf.d + ((buf.c + i(buf.d, buf.a, buf.b) + x[14] + t[50]) << 15);
    assert(rotate_regs(buf.regs(), 3) == run_steps(start, x@, 48, 51));
    buf.b = buf.c + ((buf.b + i(buf.c, buf.d, buf.a) + x[5] + t[51]) << 21);
    assert(rotate_regs(buf.regs(), 0) == run_steps(start, x@, 48, 52));
    buf.a = buf.b + ((buf.a + i(buf.b, buf.c, buf.d) + x[12] + t[52]) << 6);
    assert(rotate_regs(buf.regs(), 1) == run_steps(start, x@, 48, 53));
    buf.d = buf.a + ((buf.d + i(buf.a, buf.b, buf.c) + x[3] + t[53]) << 10);
    assert(rotate_regs(buf.regs(), 2) == run_steps(start, x@, 48, 54));
    buf.c = buf.d + ((buf.c + i(buf.d, buf.a, buf.b) + x[10] + t[54]) << 15);
    assert(rotate_regs(buf.regs(), 3) == run_steps(start, x@, 48, 55));
    buf.b = buf.c + ((buf.b + i(buf.c, buf.d, buf.a) + x[1] + t[55]) << 21);
    assert(rotate_regs(buf.regs(), 0) == run_steps(start, x@, 48, 56));
    buf.a = buf.b + ((buf.a + i(buf.b, buf.c, buf.d) + x[8] + t[56]) << 6);
    assert(rotate_regs(buf.regs(), 1) == run_steps(start, x@, 48, 57));
    buf.d = buf.a + ((buf.d + i(buf.a, buf.b, buf.c) + x[15] + t[57]) << 10);
    assert(rotate_regs(buf.regs(), 2) == run_steps(start, x@, 48, 58));
    buf.c = buf.d + ((buf.c + i(buf.d, buf.a, buf.b) + x[6] + t[58]) << 15);
    assert(rotate_regs(buf.regs(), 3) == run_steps(start, x@, 48, 59));
    buf.b = buf.c + ((buf.b + i(buf.c, buf.d, buf.a) + x[13] + t[59]) << 21);
    assert(rotate_regs(buf.regs(), 0) == run_steps(start, x@, 48, 60));
    buf.a = buf.b + ((buf.a + i(buf.b, buf.c, buf.d) + x[4] + t[60]) << 6);
    assert(rotate_regs(buf.regs(), 1) == run_steps(start, x@, 48, 61));
    buf.d = buf.a + ((buf.d + i(buf.a, buf.b, buf.c) + x[11] + t[61]) << 10);
    assert(rotate_regs(buf.regs(), 2) == run_steps(start, x@, 48, 62));
    buf.c = buf.d + ((buf.c + i(buf.d, buf.a, buf.b) + x[2] + t[62]) << 15);
    assert(rotate_regs(buf.regs(), 3) == run_steps(start, x@, 48, 63));
    buf.b = buf.c + ((buf.b + i(buf.c, buf.d, buf.a) + x[9] + t[63]) << 21);
    assert(rotate_regs(buf.regs(), 0) == run_steps(start, x@, 48, 64));
}


proof fn lemma_run_steps_split(r: Regs, x: Seq<u32>, a: int, b: int, c: int)
    requires
        a <= b <= c,
    ensures
        run_steps(run_steps(r, x, a, b), x, b, c) == run_steps(r, x, a, c),
    decreases c - b,
{
    if c > b {
        lemma_run_steps_split(r, x, a, b, c - 1);
    }
}

/// Runs the compression function over every block that `input` still has
/// to hand out, starting from the registers `buffer`.
pub fn perform_rounds(buffer: DigestBuffer, input: Md5Reader) -> (result: DigestBuffer)
    requires
        input.wf(),
    ensures
        result.regs() == compress_blocks(
            buffer.regs(),
            rfc1321_padded(input.message()),
            input.blocks_read(),
            block_count(input.message()) as int,
        ),
{
    let mut buf = buffer;
    let t = build_table();
    let mut input = input;
    let ghost msg = input.message();
    let ghost total = block_count(msg) as int;
    let ghost target = compress_blocks(buffer.regs(), rfc1321_padded(msg), input.blocks_read(), total);

    loop
        invariant
            input.wf(),
            input.message() == msg,
            total == block_count(msg),
            t@.len() == 64,
            forall|i: int| 0 <= i < 64 ==> (#[trigger] t@[i]).0 == sine_const(i),
            compress_blocks(buf.regs(), rfc1321_padded(msg), input.blocks_read(), total) == target,
        ensures
            input.blocks_read() == total,
            compress_blocks(buf.regs(), rfc1321_padded(msg), input.blocks_read(), total) == target,
        decreases total - input.blocks_read(),
    {
        match input.next() {
            Some(x) => {
                let prev_buf = buf;

                round1(&mut buf, &x, &t);
                round2(&mut buf, &x, &t);
                round3(&mut buf, &x, &t);
                round4(&mut buf, &x, &t);
                proof {
                    lemma_run_steps_split(prev_buf.regs(), x@, 0, 16, 32);
                    lemma_run_steps_split(prev_buf.regs(), x@, 0, 32, 48);
                    lemma_run_steps_split(prev_buf.regs(), x@, 0, 48, 64);
                }

                buf = buf + prev_buf;
            },
            None => {
                break ;
            },
        }
    }
    assert(compress_blocks(buf.regs(), rfc1321_padded(msg), total, total) == buf.regs());
    buf
}

} // verus!
