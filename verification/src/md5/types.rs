use vstd::prelude::*;
use vstd::std_specs::ops::{AddSpec, BitAndSpec, BitOrSpec, BitXorSpec, NotSpec, ShlSpec};

verus! {

/// Left rotation of a 32-bit word by `n` bits, as `u32::rotate_left`
/// documents it: the bits shifted out on the left re-enter on the right,
/// and a rotation by a multiple of 32 leaves the word unchanged.
pub open spec fn rotl32(x: u32, n: u32) -> u32 {
    let s = (n % 32) as u32;
    if s == 0 {
        x
    } else {
        (x << s) | (x >> ((32 - s) as u32))
    }
}

/// `u32::rotate_left` (std): the result is the word rotated left by `n`
/// bits, as the method's documentation states.
pub assume_specification[ <u32>::rotate_left ](x: u32, n: u32) -> (r: u32)
    ensures
        r == rotl32(x, n),
;

/// A 32-bit word on which `+` wraps modulo 2^32 and `<<` rotates.
#[derive(Clone, Copy)]
pub struct WrappingRotating(pub u32);

/// The four chaining registers A, B, C and D of the MD5 state.
#[derive(Clone, Copy)]
pub struct DigestBuffer {
    pub a: WrappingRotating,
    pub b: WrappingRotating,
    pub c: WrappingRotating,
    pub d: WrappingRotating,
}

/// The registers of an MD5 state as plain words `(A, B, C, D)`.
pub type Regs = (u32, u32, u32, u32);

impl DigestBuffer {
    /// The registers as plain words.
    pub open spec fn regs(self) -> Regs {
        (self.a.0, self.b.0, self.c.0, self.d.0)
    }
}

/// The operators on words: `+` adds modulo 2^32 (also with a plain `u32`),
/// `<<` rotates left, `!` complements, and `&`, `|`, `^` act bit by bit.
pub proof fn lemma_word_operators(a: WrappingRotating, b: WrappingRotating, n: u32)
    ensures
        a.add_spec(b).0 == (a.0 + b.0) % 0x1_0000_0000,
        a.add_spec(n).0 == (a.0 + n) % 0x1_0000_0000,
        a.shl_spec(n).0 == rotl32(a.0, n),
        a.not_spec().0 == 0xffff_ffff - a.0,
        forall|j: u32|
            j < 32 ==> {
                &&& #[trigger] ((a.bitand_spec(b).0 >> j) & 1) == ((a.0 >> j) & 1) * ((b.0 >> j) & 1)
                &&& ((a.bitor_spec(b).0 >> j) & 1) == 1 <==> (((a.0 >> j) & 1) == 1 || ((b.0 >> j) & 1)
                    == 1)
                &&& ((a.bitxor_spec(b).0 >> j) & 1) == 1 <==> (((a.0 >> j) & 1) != ((b.0 >> j) & 1))
            },
{
    let x = a.0;
    let y = b.0;
    assert(!x == 0xffff_ffffu32 - x) by (bit_vector);
    assert forall|j: u32| j < 32 implies {
        &&& #[trigger] ((a.bitand_spec(b).0 >> j) & 1) == ((a.0 >> j) & 1) * ((b.0 >> j) & 1)
        &&& ((a.bitor_spec(b).0 >> j) & 1) == 1 <==> (((a.0 >> j) & 1) == 1 || ((b.0 >> j) & 1) == 1)
        &&& ((a.bitxor_spec(b).0 >> j) & 1) == 1 <==> (((a.0 >> j) & 1) != ((b.0 >> j) & 1))
    } by {
        assert(j < 32 ==> ((x & y) >> j) & 1 == ((x >> j) & 1) * ((y >> j) & 1) && ((((x | y) >> j) & 1)
            == 1 <==> (((x >> j) & 1) == 1 || ((y >> j) & 1) == 1)) && ((((x ^ y) >> j) & 1) == 1 <==> (
        ((x >> j) & 1) != ((y >> j) & 1)))) by (bit_vector);
    }
}

/// Adding two digest buffers adds each register modulo 2^32.
pub proof fn lemma_buffer_add(x: DigestBuffer, y: DigestBuffer)
    ensures
        x.add_spec(y).regs() == (
            ((x.a.0 + y.a.0) % 0x1_0000_0000) as u32,
            ((x.b.0 + y.b.0) % 0x1_0000_0000) as u32,
            ((x.c.0 + y.c.0) % 0x1_0000_0000) as u32,
            ((x.d.0 + y.d.0) % 0x1_0000_0000) as u32,
        ),
{
}

impl core::ops::Add for DigestBuffer {
    type Output = DigestBuffer;

    fn add(self, rhs: DigestBuffer) -> (sum: DigestBuffer) {
        DigestBuffer { a: self.a + rhs.a, b: self.b + rhs.b, c: self.c + rhs.c, d: self.d + rhs.d }
    }
}

impl vstd::std_specs::ops::AddSpecImpl for DigestBuffer {
    open spec fn obeys_add_spec() -> bool {
        true
    }

    open spec fn add_req(self, rhs: DigestBuffer) -> bool {
        true
    }

    open spec fn add_spec(self, rhs: DigestBuffer) -> DigestBuffer {
        DigestBuffer {
            a: WrappingRotating(self.a.0.wrapping_add(rhs.a.0)),
            b: WrappingRotating(self.b.0.wrapping_add(rhs.b.0)),
            c: WrappingRotating(self.c.0.wrapping_add(rhs.c.0)),
            d: WrappingRotating(self.d.0.wrapping_add(rhs.d.0)),
        }
    }
}

impl core::ops::Add for WrappingRotating {
    type Output = WrappingRotating;

    fn add(self, rhs: WrappingRotating) -> (sum: WrappingRotating) {
        WrappingRotating(self.0.wrapping_add(rhs.0))
    }
}

impl vstd::std_specs::ops::AddSpecImpl for WrappingRotating {
    open spec fn obeys_add_spec() -> bool {
        true
    }

    open spec fn add_req(self, rhs: WrappingRotating) -> bool {
        true
    }

    open spec fn add_spec(self, rhs: WrappingRotating) -> WrappingRotating {
        WrappingRotating(self.0.wrapping_add(rhs.0))
    }
}

impl core::ops::Add<u32> for WrappingRotating {
    type Output = WrappingRotating;

    fn add(self, rhs: u32) -> (sum: WrappingRotating) {
        WrappingRotating(self.0.wrapping_add(rhs))
    }
}

impl vstd::std_specs::ops::AddSpecImpl<u32> for WrappingRotating {
    open spec fn obeys_add_spec() -> bool {
        true
    }

    open spec fn add_req(self, rhs: u32) -> bool {
        true
    }

    open spec fn add_spec(self, rhs: u32) -> WrappingRotating {
        WrappingRotating(self.0.wrapping_add(rhs))
    }
}

impl core::ops::Shl<u32> for WrappingRotating {
    type Output = WrappingRotating;

    fn shl(self, rhs: u32) -> (rotated: WrappingRotating) {
        WrappingRotating(self.0.rotate_left(rhs))
    }
}

impl vstd::std_specs::ops::ShlSpecImpl<u32> for WrappingRotating {
    open spec fn obeys_shl_spec() -> bool {
        true
    }

    open spec fn shl_req(self, rhs: u32) -> bool {
        true
    }

    open spec fn shl_spec(self, rhs: u32) -> WrappingRotating {
        WrappingRotating(rotl32(self.0, rhs))
    }
}

impl core::ops::ShlAssign<u32> for WrappingRotating {
    fn shl_assign(&mut self, rhs: u32)
        ensures
            final(self).0 == rotl32(old(self).0, rhs),
    {
        self.0 = self.0.rotate_left(rhs)
    }
}

impl core::ops::Not for WrappingRotating {
    type Output = WrappingRotating;

    fn not(self) -> (r: WrappingRotating) {
        WrappingRotating(!self.0)
    }
}

impl vstd::std_specs::ops::NotSpecImpl for WrappingRotating {
    open spec fn obeys_not_spec() -> bool {
        true
    }

    open spec fn not_req(self) -> bool {
        true
    }

    open spec fn not_spec(self) -> WrappingRotating {
        WrappingRotating(!self.0)
    }
}

impl core::ops::BitAnd for WrappingRotating {
    type Output = WrappingRotating;

    fn bitand(self, rhs: WrappingRotating) -> (r: WrappingRotating) {
        WrappingRotating(self.0 & rhs.0)
    }
}

impl vstd::std_specs::ops::BitAndSpecImpl for WrappingRotating {
    open spec fn obeys_bitand_spec() -> bool {
        true
    }

    open spec fn bitand_req(self, rhs: WrappingRotating) -> bool {
        true
    }

    open spec fn bitand_spec(self, rhs: WrappingRotating) -> WrappingRotating {
        WrappingRotating(self.0 & rhs.0)
    }
}

impl core::ops::BitOr for WrappingRotating {
    type Output = WrappingRotating;

    fn bitor(self, rhs: WrappingRotating) -> (r: WrappingRotating) {
        WrappingRotating(self.0 | rhs.0)
    }
}

impl vstd::std_specs::ops::BitOrSpecImpl for WrappingRotating {
    open spec fn obeys_bitor_spec() -> bool {
        true
    }

    open spec fn bitor_req(self, rhs: WrappingRotating) -> bool {
        true
    }

    open spec fn bitor_spec(self, rhs: WrappingRotating) -> WrappingRotating {
        WrappingRotating(self.0 | rhs.0)
    }
}

impl core::ops::BitXor for WrappingRotating {
    type Output = WrappingRotating;

    fn bitxor(self, rhs: WrappingRotating) -> (r: WrappingRotating) {
        WrappingRotating(self.0 ^ rhs.0)
    }
}

impl vstd::std_specs::ops::BitXorSpecImpl for WrappingRotating {
    open spec fn obeys_bitxor_spec() -> bool {
        true
    }

    open spec fn bitxor_req(self, rhs: WrappingRotating) -> bool {
        true
    }

    open spec fn bitxor_spec(self, rhs: WrappingRotating) -> WrappingRotating {
        WrappingRotating(self.0 ^ rhs.0)
    }
}

} // verus!
