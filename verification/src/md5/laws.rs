//! Properties of the MD5 model that hold across its definitions.
use vstd::prelude::*;

use super::spec::{
    block_count, block_words, compress, compress_blocks, fun_f, fun_g, fun_h, fun_i, init_regs,
    le_word, length_field, msg_index, pad_zero_count, regs_le_bytes, rfc1321_digest,
    rfc1321_padded, round_fun, run_steps, shift_amount, sine_const, step, u32_le_bytes,
    u64_le_bytes,
};
use super::types::{rotl32, Regs};

verus! {

/// The padded message is the message followed by 0x80, between 0 and 63
/// zero bytes and the 8-byte length field; it is the shortest such string
/// whose length is a multiple of 64, so there are `(n + 8) / 64 + 1` blocks.
pub proof fn lemma_padded_shape(msg: Seq<u8>)
    ensures
        rfc1321_padded(msg).len() == msg.len() + 9 + pad_zero_count(msg.len()),
        pad_zero_count(msg.len()) < 64,
        (msg.len() + 1 + pad_zero_count(msg.len())) % 64 == 56,
        rfc1321_padded(msg).len() % 64 == 0,
        block_count(msg) == (msg.len() + 8) / 64 + 1,
        block_count(msg) * 64 == rfc1321_padded(msg).len(),
        rfc1321_padded(msg).take(msg.len() as int) == msg,
        rfc1321_padded(msg)[msg.len() as int] == 0x80u8,
        forall|j: int|
            msg.len() < j < msg.len() + 1 + pad_zero_count(msg.len()) ==> #[trigger] rfc1321_padded(
                msg,
            )[j] == 0u8,
        rfc1321_padded(msg).skip((msg.len() + 1 + pad_zero_count(msg.len())) as int)
            == u64_le_bytes(length_field(msg.len())),
        length_field(msg.len()) == (msg.len() * 8) % 0x1_0000_0000_0000_0000,
{
    let s = rfc1321_padded(msg);
    let n = msg.len();
    assert(s.take(n as int) =~= msg);
    assert(s.skip((n + 1 + pad_zero_count(n)) as int) =~= u64_le_bytes(length_field(n)));
}

/// Compressing blocks `a .. c` is compressing `a .. b` and then, from the
/// registers that gives, `b .. c`: the registers are the only state carried
/// from one run of blocks into the next.
pub proof fn lemma_compress_blocks_split(r: Regs, s: Seq<u8>, a: int, b: int, c: int)
    requires
        a <= b <= c,
    ensures
        compress_blocks(r, s, a, c) == compress_blocks(compress_blocks(r, s, a, b), s, b, c),
    decreases b - a,
{
    if a < b {
        lemma_compress_blocks_split(compress(r, block_words(s, a)), s, a + 1, b, c);
    }
}

/// F is a bitwise selector: where a bit of `x` is set it takes the bit of
/// `y`, elsewhere the bit of `z`.
pub proof fn lemma_fun_f_selects(x: u32, y: u32, z: u32)
    ensures
        fun_f(x, y, z) & x == y & x,
        fun_f(x, y, z) & !x == z & !x,
{
    assert(((x & y) | (!x & z)) & x == y & x) by (bit_vector);
    assert(((x & y) | (!x & z)) & !x == z & !x) by (bit_vector);
}

/// G is a bitwise selector on `z`: where a bit of `z` is set it takes the
/// bit of `x`, elsewhere the bit of `y`.
pub proof fn lemma_fun_g_selects(x: u32, y: u32, z: u32)
    ensures
        fun_g(x, y, z) & z == x & z,
        fun_g(x, y, z) & !z == y & !z,
{
    assert(((x & z) | (y & !z)) & z == x & z) by (bit_vector);
    assert(((x & z) | (y & !z)) & !z == y & !z) by (bit_vector);
}

/// H is bitwise parity: each bit is set exactly when an odd number of the
/// three input bits are; on each bit it is the sum of the three modulo 2.
pub proof fn lemma_fun_h_parity(x: u32, y: u32, z: u32)
    ensures
        fun_h(x, y, z) ^ z == x ^ y,
        forall|j: u32|
            j < 32 ==> #[trigger] ((fun_h(x, y, z) >> j) & 1) == (((x >> j) & 1) + ((y >> j) & 1)
                + ((z >> j) & 1)) % 2,
{
    assert(x ^ y ^ z ^ z == x ^ y) by (bit_vector);
    assert forall|j: u32| j < 32 implies #[trigger] ((fun_h(x, y, z) >> j) & 1) == (((x >> j) & 1)
        + ((y >> j) & 1) + ((z >> j) & 1)) % 2 by {
        assert(((x ^ y ^ z) >> j) & 1 == (((x >> j) & 1) + ((y >> j) & 1) + ((z >> j) & 1)) % 2)
            by (bit_vector);
    }
}

/// I sets a bit exactly when the bit of `y` differs from (bit of `x` or not
/// bit of `z`).
pub proof fn lemma_fun_i_bits(x: u32, y: u32, z: u32)
    ensures
        fun_i(x, y, z) ^ y == x | !z,
        forall|j: u32|
            j < 32 ==> (#[trigger] ((fun_i(x, y, z) >> j) & 1) == 1 <==> (((y >> j) & 1 == 1) != (((x
                >> j) & 1 == 1) || ((z >> j) & 1 == 0)))),
{
    assert((y ^ (x | !z)) ^ y == x | !z) by (bit_vector);
    assert forall|j: u32| j < 32 implies (#[trigger] ((fun_i(x, y, z) >> j) & 1) == 1 <==> (((y
        >> j) & 1 == 1) != (((x >> j) & 1 == 1) || ((z >> j) & 1 == 0)))) by {
        assert(j < 32 ==> ((((y ^ (x | !z)) >> j) & 1) == 1 <==> (((y >> j) & 1 == 1) != (((x >> j)
            & 1 == 1) || ((z >> j) & 1 == 0))))) by (bit_vector);
    }
}

/// Rotation moves bit `j - n` (modulo 32) of `x` to bit `j`.
pub proof fn lemma_rotl32_bits(x: u32, n: u32)
    ensures
        forall|j: u32|
            j < 32 ==> #[trigger] ((rotl32(x, n) >> j) & 1) == (x >> ((j + 32 - n % 32) % 32) as u32)
                & 1,
{
    assert forall|j: u32| j < 32 implies #[trigger] ((rotl32(x, n) >> j) & 1) == (x >> ((j + 32 - n
        % 32) % 32) as u32) & 1 by {
        let s = (n % 32) as u32;
        if s == 0 {
            assert(j < 32 ==> (x >> j) & 1 == (x >> ((j + 32 - 0u32) % 32) as u32) & 1)
                by (bit_vector);
        } else {
            assert(j < 32 && 0 < s && s < 32 ==> (((x << s) | (x >> ((32 - s) as u32))) >> j) & 1 == (x
                >> ((j + 32 - s) % 32) as u32) & 1) by (bit_vector);
        }
    }
}

/// A block word is the four bytes of the stream taken as a base-256
/// number, least significant first, each byte unchanged.
pub proof fn lemma_le_word_value(s: Seq<u8>, base: int)
    ensures
        le_word(s, base) as int == s[base] as int + 0x100 * s[base + 1] + 0x1_0000 * s[base + 2]
            + 0x100_0000 * s[base + 3],
{
    let b0 = s[base];
    let b1 = s[base + 1];
    let b2 = s[base + 2];
    let b3 = s[base + 3];
    assert((b0 as u32) | ((b1 as u32) << 8) | ((b2 as u32) << 16) | ((b3 as u32) << 24) == b0 as u32
        + 0x100 * (b1 as u32) + 0x1_0000 * (b2 as u32) + 0x100_0000 * (b3 as u32)) by (bit_vector);
}

/// Block `k` of a stream holds the 16 words of its 64 bytes from `64 * k`
/// on, each four bytes as a base-256 number, least significant first.
pub proof fn lemma_block_words_value(s: Seq<u8>, k: int)
    ensures
        block_words(s, k).len() == 16,
        forall|i: int|
            0 <= i < 16 ==> #[trigger] block_words(s, k)[i] as int == s[64 * k + 4 * i] as int + 0x100
                * s[64 * k + 4 * i + 1] + 0x1_0000 * s[64 * k + 4 * i + 2] + 0x100_0000 * s[64 * k + 4
                * i + 3],
{
    assert forall|i: int| 0 <= i < 16 implies #[trigger] block_words(s, k)[i] as int == s[64 * k + 4
        * i] as int + 0x100 * s[64 * k + 4 * i + 1] + 0x1_0000 * s[64 * k + 4 * i + 2] + 0x100_0000
        * s[64 * k + 4 * i + 3] by {
        lemma_le_word_value(s, 64 * k + 4 * i);
    }
}

/// The four bytes of a 32-bit word are its base-256 digits, least
/// significant first.
pub proof fn lemma_u32_le_bytes_value(v: u32)
    ensures
        u32_le_bytes(v).len() == 4,
        u32_le_bytes(v)[0] == v % 0x100,
        u32_le_bytes(v)[1] == (v / 0x100) % 0x100,
        u32_le_bytes(v)[2] == (v / 0x1_0000) % 0x100,
        u32_le_bytes(v)[3] == v / 0x100_0000,
{
    assert(((v & 0xff) as u8) == v % 0x100 && (((v >> 8) & 0xff) as u8) == (v / 0x100) % 0x100 && ((
    (v >> 16) & 0xff) as u8) == (v / 0x1_0000) % 0x100 && (((v >> 24) & 0xff) as u8) == v / 0x100_0000)
        by (bit_vector);
}

/// The eight bytes of a 64-bit word are its base-256 digits, least
/// significant first.
pub proof fn lemma_u64_le_bytes_value(v: u64)
    ensures
        u64_le_bytes(v).len() == 8,
        u64_le_bytes(v)[0] == v % 0x100,
        u64_le_bytes(v)[1] == (v / 0x100) % 0x100,
        u64_le_bytes(v)[2] == (v / 0x1_0000) % 0x100,
        u64_le_bytes(v)[3] == (v / 0x100_0000) % 0x100,
        u64_le_bytes(v)[4] == (v / 0x1_0000_0000) % 0x100,
        u64_le_bytes(v)[5] == (v / 0x100_0000_0000) % 0x100,
        u64_le_bytes(v)[6] == (v / 0x1_0000_0000_0000) % 0x100,
        u64_le_bytes(v)[7] == v / 0x100_0000_0000_0000,
{
    assert(((v >> 0u64) & 0xff) as u8 == v % 0x100 && ((v >> 8u64) & 0xff) as u8 == (v / 0x100)
        % 0x100 && ((v >> 16u64) & 0xff) as u8 == (v / 0x1_0000) % 0x100 && ((v >> 24u64) & 0xff) as u8
        == (v / 0x100_0000) % 0x100) by (bit_vector);
    assert(((v >> 32u64) & 0xff) as u8 == (v / 0x1_0000_0000) % 0x100 && ((v >> 40u64) & 0xff) as u8
        == (v / 0x100_0000_0000) % 0x100 && ((v >> 48u64) & 0xff) as u8 == (v / 0x1_0000_0000_0000)
        % 0x100 && ((v >> 56u64) & 0xff) as u8 == v / 0x100_0000_0000_0000) by (bit_vector);
}

/// One step in plain arithmetic: with `(A, B, C, D)` the registers, the
/// new B is `B + ((A + fun(B, C, D) + X[k] + T[i]) <<< s)` modulo 2^32,
/// with the message word `X[k]` read unchanged, and the other registers
/// move on as `(D, new B, B, C)`.
pub proof fn lemma_step_value(r: Regs, i: int, x: Seq<u32>)
    ensures
        ({
            let sum = (r.0 as int + round_fun(i, r.1, r.2, r.3) as int + x[msg_index(i)] as int
                + sine_const(i) as int) % 0x1_0000_0000;
            step(r, i, x) == (
                r.3,
                ((r.1 as int + rotl32(sum as u32, shift_amount(i)) as int) % 0x1_0000_0000) as u32,
                r.1,
                r.2,
            )
        }),
{
}

/// Running no step leaves the registers; running `a .. a + 1` is one step;
/// and running `a .. c` is running `a .. b` then `b .. c`.
pub proof fn lemma_run_steps_compose(r: Regs, x: Seq<u32>, a: int, b: int, c: int)
    requires
        a <= b <= c,
    ensures
        run_steps(r, x, a, a) == r,
        run_steps(r, x, a, a + 1) == step(r, a, x),
        run_steps(r, x, a, c) == run_steps(run_steps(r, x, a, b), x, b, c),
    decreases c - b,
{
    assert(run_steps(r, x, a, a) == r);
    if c > b {
        lemma_run_steps_compose(r, x, a, b, c - 1);
    }
}

/// The compression of a block is the register-wise sum, modulo 2^32, of
/// the registers it starts from and the registers after the 64 steps run
/// on that very block.
pub proof fn lemma_compress_value(r: Regs, x: Seq<u32>)
    ensures
        ({
            let s = run_steps(r, x, 0, 64);
            compress(r, x) == (
                ((r.0 as int + s.0 as int) % 0x1_0000_0000) as u32,
                ((r.1 as int + s.1 as int) % 0x1_0000_0000) as u32,
                ((r.2 as int + s.2 as int) % 0x1_0000_0000) as u32,
                ((r.3 as int + s.3 as int) % 0x1_0000_0000) as u32,
            )
        }),
{
}

/// Each round reads every one of the 16 message words exactly once, and
/// the first round reads them in order.
pub proof fn lemma_msg_index_permutes(g: int)
    requires
        0 <= g < 4,
    ensures
        forall|i: int| 16 * g <= i < 16 * g + 16 ==> 0 <= #[trigger] msg_index(i) < 16,
        forall|i: int, j: int|
            16 * g <= i < 16 * g + 16 && 16 * g <= j < 16 * g + 16 && #[trigger] msg_index(i)
                == #[trigger] msg_index(j) ==> i == j,
        g == 0 ==> forall|i: int| 0 <= i < 16 ==> #[trigger] msg_index(i) == i,
{
    assert forall|i: int, j: int|
        16 * g <= i < 16 * g + 16 && 16 * g <= j < 16 * g + 16 && #[trigger] msg_index(i)
            == #[trigger] msg_index(j) implies i == j by {
        let a = (i - 16 * g) as u32;
        let b = (j - 16 * g) as u32;
        if g == 1 {
            assert(a < 16 && b < 16 && (5 * (a + 16) + 1) % 16 == (5 * (b + 16) + 1) % 16 ==> a == b)
                by (bit_vector);
        } else if g == 2 {
            assert(a < 16 && b < 16 && (3 * (a + 32) + 5) % 16 == (3 * (b + 32) + 5) % 16 ==> a == b)
                by (bit_vector);
        } else if g == 3 {
            assert(a < 16 && b < 16 && (7 * (a + 48)) % 16 == (7 * (b + 48)) % 16 ==> a == b)
                by (bit_vector);
        }
    }
}

/// Within a round the message index advances by a fixed stride modulo 16
/// (1, 5, 3 and 7 in the four rounds), starting from words 0, 1, 5 and 0.
pub proof fn lemma_msg_index_stride(g: int)
    requires
        0 <= g < 4,
    ensures
        msg_index(16 * g) == (if g == 0 {
            0int
        } else if g == 1 {
            1int
        } else if g == 2 {
            5int
        } else {
            0int
        }),
        forall|i: int|
            16 * g <= i < 16 * g + 15 ==> #[trigger] msg_index(i + 1) == (msg_index(i) + (if g == 0 {
                1int
            } else if g == 1 {
                5int
            } else if g == 2 {
                3int
            } else {
                7int
            })) % 16,
{
    assert forall|i: int| 16 * g <= i < 16 * g + 15 implies #[trigger] msg_index(i + 1) == (msg_index(
        i,
    ) + (if g == 0 {
        1int
    } else if g == 1 {
        5int
    } else if g == 2 {
        3int
    } else {
        7int
    })) % 16 by {
        let a = (i - 16 * g) as u32;
        if g == 1 {
            assert(a < 15 ==> (5 * (a + 17) + 1) % 16 == ((5 * (a + 16) + 1) % 16 + 5) % 16)
                by (bit_vector);
        } else if g == 2 {
            assert(a < 15 ==> (3 * (a + 33) + 5) % 16 == ((3 * (a + 32) + 5) % 16 + 3) % 16)
                by (bit_vector);
        } else if g == 3 {
            assert(a < 15 ==> (7 * (a + 49)) % 16 == ((7 * (a + 48)) % 16 + 7) % 16) by (bit_vector);
        }
    }
}

/// The rotation amounts: in each round four amounts repeat with period 4.
pub proof fn lemma_shift_amounts(i: int)
    requires
        0 <= i < 64,
    ensures
        shift_amount(i) == seq![
            7u32, 12, 17, 22, 5, 9, 14, 20, 4, 11, 16, 23, 6, 10, 15, 21,
        ][4 * (i / 16) + i % 4],
{
}

/// The initial registers, written out as bytes as RFC 1321 (3.3) lists
/// them: A = 01 23 45 67, B = 89 ab cd ef, C = fe dc ba 98, D = 76 54 32 10.
pub proof fn lemma_init_regs_bytes()
    ensures
        regs_le_bytes(init_regs()) == seq![
            0x01u8, 0x23, 0x45, 0x67, 0x89, 0xab, 0xcd, 0xef,
            0xfe, 0xdc, 0xba, 0x98, 0x76, 0x54, 0x32, 0x10,
        ],
{
    let r = init_regs();
    lemma_u32_le_bytes_value(r.0);
    lemma_u32_le_bytes_value(r.1);
    lemma_u32_le_bytes_value(r.2);
    lemma_u32_le_bytes_value(r.3);
    assert(regs_le_bytes(r) =~= seq![
        0x01u8, 0x23, 0x45, 0x67, 0x89, 0xab, 0xcd, 0xef,
        0xfe, 0xdc, 0xba, 0x98, 0x76, 0x54, 0x32, 0x10,
    ]);
}

/// The digest serialises A, B, C and D in that order, four bytes each,
/// least significant byte first.
pub proof fn lemma_regs_le_bytes_value(r: Regs)
    ensures
        regs_le_bytes(r).len() == 16,
        regs_le_bytes(r).subrange(0, 4) == u32_le_bytes(r.0),
        regs_le_bytes(r).subrange(4, 8) == u32_le_bytes(r.1),
        regs_le_bytes(r).subrange(8, 12) == u32_le_bytes(r.2),
        regs_le_bytes(r).subrange(12, 16) == u32_le_bytes(r.3),
{
    assert(regs_le_bytes(r).subrange(0, 4) =~= u32_le_bytes(r.0));
    assert(regs_le_bytes(r).subrange(4, 8) =~= u32_le_bytes(r.1));
    assert(regs_le_bytes(r).subrange(8, 12) =~= u32_le_bytes(r.2));
    assert(regs_le_bytes(r).subrange(12, 16) =~= u32_le_bytes(r.3));
}

/// Compressing a run of blocks: no block leaves the registers, one block
/// is one compression, and runs split at any point.
pub proof fn lemma_compress_blocks_steps(r: Regs, s: Seq<u8>, a: int)
    ensures
        compress_blocks(r, s, a, a) == r,
        compress_blocks(r, s, a, a + 1) == compress(r, block_words(s, a)),
{
    assert(compress_blocks(compress(r, block_words(s, a)), s, a + 1, a + 1) == compress(
        r,
        block_words(s, a),
    ));
}

/// The digest is the serialised registers after compressing, from the
/// initial registers, every one of the `(n + 8) / 64 + 1` blocks of the
/// padding of the whole message, whose first `n` bytes are the message.
pub proof fn lemma_digest_covers_message(msg: Seq<u8>)
    ensures
        rfc1321_padded(msg).take(msg.len() as int) == msg,
        rfc1321_padded(msg).len() == 64 * ((msg.len() + 8) / 64 + 1),
        rfc1321_digest(msg) == regs_le_bytes(
            compress_blocks(init_regs(), rfc1321_padded(msg), 0, ((msg.len() + 8) / 64 + 1) as int),
        ),
{
    lemma_padded_shape(msg);
}

/// A digest is 16 bytes long.
pub proof fn lemma_digest_len(msg: Seq<u8>)
    ensures
        rfc1321_digest(msg).len() == 16,
{
}

} // verus!
