use vstd::prelude::*;

use super::spec::{block_count, block_words, le_word, length_field, pad_zero_count, rfc1321_padded};

verus! {

/// Where the reader stands in the rfc1321_padded stream: still in the message,
/// writing the zero bytes (with how many are left), writing the length
/// field (with how many bytes are left), or past the end.
#[derive(Debug)]
enum ReaderState {
    DataFlow,
    Padding(u8),
    SizeWriting(u8),
    Ended,
}

/// The low 61 bits of a byte count: eight times it is the bit count
/// modulo 2^64.
pub open spec fn wrapped_count(n: nat) -> nat {
    n % 0x2000_0000_0000_0000
}

/// The 32-bit word made of the first `k` bytes of `s` from `base` on,
/// little-endian, the other bits zero.
pub open spec fn word_prefix(s: Seq<u8>, base: int, k: nat) -> u32
    decreases k,
{
    if k == 0 {
        0
    } else {
        word_prefix(s, base, (k - 1) as nat) | ((s[base + k - 1] as u32) << (8 * (k - 1)) as u32)
    }
}

proof fn lemma_word_prefix_full(s: Seq<u8>, base: int)
    ensures
        word_prefix(s, base, 4) == le_word(s, base),
{
    reveal_with_fuel(word_prefix, 5);
    let b0 = s[base] as u32;
    let b1 = s[base + 1] as u32;
    let b2 = s[base + 2] as u32;
    let b3 = s[base + 3] as u32;
    assert((((0u32 | (b0 << 0u32)) | (b1 << 8u32)) | (b2 << 16u32)) | (b3 << 24u32) == b0 | (b1
        << 8u32) | (b2 << 16u32) | (b3 << 24u32)) by (bit_vector);
}

proof fn lemma_or_zero_byte(w: u32, sh: u32)
    requires
        sh < 32,
    ensures
        w | ((0u8 as u32) << sh) == w,
{
    assert(w | ((0u8 as u32) << sh) == w) by (bit_vector)
        requires
            sh < 32,
    ;
}

proof fn lemma_shift_right_byte(x: u64, a: u64)
    requires
        a <= 56,
    ensures
        (x >> a) >> 8u64 == x >> (a + 8) as u64,
        ((x >> a) as u8) == (((x >> a) & 0xff) as u8),
{
    assert((x >> a) >> 8u64 == x >> (a + 8) as u64) by (bit_vector)
        requires
            a <= 56,
    ;
    assert(((x >> a) as u8) == (((x >> a) & 0xff) as u8)) by (bit_vector);
}

proof fn lemma_wrapped_count_step(pos: u64, len: u64)
    requires
        pos < u64::MAX,
        len == pos % 0x2000_0000_0000_0000,
    ensures
        len + 1 <= 0x2000_0000_0000_0000,
        len + 1 == 0x2000_0000_0000_0000 ==> (pos + 1) % 0x2000_0000_0000_0000 == 0,
        len + 1 != 0x2000_0000_0000_0000 ==> (pos + 1) % 0x2000_0000_0000_0000 == len + 1,
{
    assert(len + 1 <= 0x2000_0000_0000_0000u64) by (bit_vector)
        requires
            len == pos % 0x2000_0000_0000_0000u64,
    ;
    assert(len + 1 == 0x2000_0000_0000_0000u64 ==> ((pos + 1) as u64) % 0x2000_0000_0000_0000u64 == 0u64)
        by (bit_vector)
        requires
            pos < 0xffff_ffff_ffff_ffffu64,
            len == pos % 0x2000_0000_0000_0000u64,
    ;
    assert(len + 1 != 0x2000_0000_0000_0000u64 ==> ((pos + 1) as u64) % 0x2000_0000_0000_0000u64 == len + 1)
        by (bit_vector)
        requires
            pos < 0xffff_ffff_ffff_ffffu64,
            len == pos % 0x2000_0000_0000_0000u64,
    ;
}

proof fn lemma_length_field_start(n: u64, len: u64)
    requires
        len == wrapped_count(n as nat),
    ensures
        len * 8 <= u64::MAX,
        length_field(n as nat) >> 0u64 == len * 8,
{
    let w = n as u128;
    assert(((w * 8) as u128) % 0x1_0000_0000_0000_0000u128 == (w % 0x2000_0000_0000_0000u128) * 8
        && (w % 0x2000_0000_0000_0000u128) * 8 <= 0xffff_ffff_ffff_ffffu128) by (bit_vector)
        requires
            w <= 0xffff_ffff_ffff_ffffu128,
    ;
    let l = length_field(n as nat);
    assert(l >> 0u64 == l) by (bit_vector);
}

proof fn lemma_wrapped_count_mod64(n: u64)
    ensures
        (n % 0x2000_0000_0000_0000 + 9) % 64 == (n as int + 9) % 64,
{
    assert((n % 0x2000_0000_0000_0000 + 9) % 64 == (n + 9) % 64) by (bit_vector);
}

/// The byte at position `q` of the rfc1321_padded message, by cases.
proof fn lemma_padded_index(msg: Seq<u8>, q: int)
    requires
        0 <= q < rfc1321_padded(msg).len(),
    ensures
        rfc1321_padded(msg).len() == msg.len() + 9 + pad_zero_count(msg.len()),
        rfc1321_padded(msg).len() % 64 == 0,
        q < msg.len() ==> rfc1321_padded(msg)[q] == msg[q],
        q == msg.len() ==> rfc1321_padded(msg)[q] == 0x80u8,
        msg.len() < q < msg.len() + 1 + pad_zero_count(msg.len()) ==> rfc1321_padded(msg)[q] == 0u8,
        msg.len() + 1 + pad_zero_count(msg.len()) <= q ==> rfc1321_padded(msg)[q] == ((length_field(
            msg.len(),
        ) >> (8 * (q - msg.len() - 1 - pad_zero_count(msg.len()))) as u64) & 0xff) as u8,
{
}

/// Reads a message and hands it out as the 64-byte blocks of the rfc1321_padded
/// message, each as 16 little-endian words.
pub struct Md5Reader<'a> {
    input: &'a [u8],
    pos: usize,
    state: ReaderState,
    len: u64,
}

impl<'a> Md5Reader<'a> {
    /// The message being read.
    pub closed spec fn message(self) -> Seq<u8> {
        self.input@
    }

    /// The position in the rfc1321_padded message that the next byte comes from.
    pub closed spec fn stream_pos(self) -> int {
        let n = self.input@.len();
        let p = pad_zero_count(n);
        match self.state {
            ReaderState::DataFlow => self.pos as int,
            ReaderState::Padding(s) => n + 1 + p - s,
            ReaderState::SizeWriting(s) => n + 1 + p + 8 - s,
            ReaderState::Ended => (n + 9 + p) as int,
        }
    }

    /// The internal state agrees with the position in the rfc1321_padded message.
    closed spec fn state_ok(self) -> bool {
        let n = self.input@.len();
        let p = pad_zero_count(n);
        match self.state {
            ReaderState::DataFlow => self.pos <= n && self.len == wrapped_count(self.pos as nat),
            ReaderState::Padding(s) => 1 <= s <= p && self.len == wrapped_count(n),
            ReaderState::SizeWriting(s) => 1 <= s <= 8 && self.len == length_field(n) >> (8 * (8
                - s)) as u64,
            ReaderState::Ended => true,
        }
    }

    /// The number of blocks handed out so far.
    pub closed spec fn blocks_read(self) -> int {
        self.stream_pos() / 64
    }

    /// Between two calls of `next`: the state is consistent and stands at
    /// the start of a block.
    pub closed spec fn wf(self) -> bool {
        &&& self.state_ok()
        &&& self.stream_pos() % 64 == 0
        &&& 0 <= self.blocks_read() <= block_count(self.message())
    }

    /// A well-formed reader stands at or before the end of the padded
    /// message: it has handed out at most all of its blocks.
    pub proof fn lemma_blocks_read_bound(self)
        requires
            self.wf(),
        ensures
            0 <= self.blocks_read() <= block_count(self.message()),
    {
    }

    /// A reader at the start of `base`.
    pub fn new(base: &'a [u8]) -> (reader: Md5Reader<'a>)
        ensures
            reader.wf(),
            reader.message() == base@,
            reader.blocks_read() == 0,
    {
        Md5Reader { input: base, state: ReaderState::DataFlow, len: 0, pos: 0 }
    }

    /// The next block of the rfc1321_padded message, or `None` once all of them
    /// have been handed out.
    pub fn next(&mut self) -> (block: Option<[u32; 16]>)
        requires
            old(self).wf(),
        ensures
            final(self).wf(),
            final(self).message() == old(self).message(),
            match block {
                Some(b) => {
                    &&& old(self).blocks_read() < block_count(old(self).message())
                    &&& b@ == block_words(rfc1321_padded(old(self).message()), old(self).blocks_read())
                    &&& final(self).blocks_read() == old(self).blocks_read() + 1
                },
                None => {
                    &&& old(self).blocks_read() == block_count(old(self).message())
                    &&& final(self).blocks_read() == old(self).blocks_read()
                },
            },
    {
        let ghost msg = self.input@;
        let ghost n = msg.len();
        let ghost p = pad_zero_count(n);
        let ghost stream = rfc1321_padded(msg);
        let ghost base = self.stream_pos();
        proof {
            lemma_padded_index(msg, 0);
        }
        let mut list: [u32; 16] = [0u32; 16];

        for index in 0..16
            invariant
                self.input@ == msg,
                n == msg.len(),
                p == pad_zero_count(n),
                stream == rfc1321_padded(msg),
                stream.len() == n + 9 + p,
                stream.len() % 64 == 0,
                base % 64 == 0,
                base < stream.len() || (base == stream.len() && self.state is Ended && index == 0),
                self.state_ok(),
                self.stream_pos() == base + 4 * index,
                self.stream_pos() <= stream.len(),
                forall|i: int| 0 <= i < index ==> list@[i] == le_word(stream, base + 4 * i),
                forall|i: int| index <= i < 16 ==> list@[i] == 0,
                index == 0 ==> *self == *old(self),
        {
            for shift in 0..4u32
                invariant
                    self.input@ == msg,
                    n == msg.len(),
                    p == pad_zero_count(n),
                    stream == rfc1321_padded(msg),
                    stream.len() == n + 9 + p,
                    stream.len() % 64 == 0,
                    base % 64 == 0,
                    0 <= index < 16,
                    base < stream.len() || (base == stream.len() && self.state is Ended && index == 0
                        && shift == 0),
                    self.state_ok(),
                    self.stream_pos() == base + 4 * index + shift,
                    self.stream_pos() <= stream.len(),
                    forall|i: int| 0 <= i < index ==> list@[i] == le_word(stream, base + 4 * i),
                    list@[index as int] == word_prefix(stream, base + 4 * index, shift as nat),
                    forall|i: int| index < i < 16 ==> list@[i] == 0,
                    index == 0 && shift == 0 ==> *self == *old(self),
            {
                let ghost q = self.stream_pos();
                match self.state {
                    ReaderState::DataFlow => {
                        if self.pos < self.input.len() {
                            proof {
                                lemma_wrapped_count_step(self.pos as u64, self.len);
                                assert(1u64 << 61u64 == 0x2000_0000_0000_0000u64) by (bit_vector);
                            }
                            let item = self.input[self.pos];
                            self.pos += 1;
                            self.len += 1;
                            // for very long inputs - wrap the count around at 2^61, so that
                            // eight times it is the bit length modulo 2^64
                            if self.len == 1 << 61 {
                                self.len = 0
                            };
                            list[index] = list[index] | ((item as u32) << (8 * shift));
                        } else {
                            proof {
                                lemma_wrapped_count_mod64(n as u64);
                            }
                            let size = 64 - ((self.len + 9) % 64) as u8;
                            self.state = if size < 64 {
                                ReaderState::Padding(size)
                            } else {
                                proof {
                                    lemma_length_field_start(self.input.len() as u64, self.len);
                                }
                                self.len = self.len * 8;
                                ReaderState::SizeWriting(8)
                            };
                            list[index] = list[index] | (0x80 << (8 * shift));
                        }
                    },
                    ReaderState::Padding(size) => {
                        proof {
                            lemma_or_zero_byte(list@[index as int], (8 * shift) as u32);
                            lemma_length_field_start(self.input.len() as u64, self.len);
                        }
                        self.state = if size > 1 {
                            ReaderState::Padding(size - 1)
                        } else {
                            self.len = self.len * 8;
                            ReaderState::SizeWriting(8)
                        };
                    },
                    ReaderState::SizeWriting(size) => {
                        proof {
                            lemma_shift_right_byte(length_field(n), (8 * (8 - size)) as u64);
                        }
                        list[index] = list[index] | ((self.len as u8 as u32) << (8 * shift));
                        self.len = self.len >> 8;
                        self.state = if size > 1 {
                            ReaderState::SizeWriting(size - 1)
                        } else {
                            ReaderState::Ended
                        };
                    },
                    ReaderState::Ended => {
                        return None;
                    },
                }
                proof {
                    lemma_padded_index(msg, q);
                }
            }
            proof {
                lemma_word_prefix_full(stream, base + 4 * index);
            }
        }
        Some(list)
    }
}

} // verus!
