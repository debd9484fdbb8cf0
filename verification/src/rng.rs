//! The small pseudo-random generator that feeds the noise of the synthesizer
//! (a xoshiro128+-style generator with a fixed seed).
use vstd::prelude::*;

verus! {

/// `x` rotated left by `n` bits: the bits shifted out at the top come back
/// in at the bottom.
pub open spec fn rotate_left(x: u32, n: u32) -> u32
    recommends
        0 < n < 32,
{
    (x << n) | (x >> ((32 - n) as u32))
}

/// `x + y` modulo 2^32.
pub open spec fn add_wrapping(x: u32, y: u32) -> u32 {
    ((x + y) % 0x1_0000_0000) as u32
}

/// The number that the generator in state `s` hands out next.
pub open spec fn spec_output(s: (u32, u32, u32, u32)) -> u32 {
    add_wrapping(rotate_left(add_wrapping(s.0, s.3), 7), s.0)
}

/// The state of the generator after it hands out a number from state `s`.
pub open spec fn spec_advance(s: (u32, u32, u32, u32)) -> (u32, u32, u32, u32) {
    (
        s.0 ^ s.1 ^ s.3,
        s.0 ^ s.1 ^ s.2,
        s.0 ^ s.2 ^ (s.1 << 9u32),
        rotate_left(s.1 ^ s.3, 11),
    )
}

/// The seed that every synthesis starts from.
pub open spec fn spec_fixed_seed() -> (u32, u32, u32, u32) {
    (0xFEEDBACC, 0xDEADBEEF, 0xE6E6E6E6, 0xC8675309)
}

/// A pseudo-random generator of 32-bit numbers.
#[derive(Debug, Copy, Clone)]
pub struct RandomState([u32; 4]);

impl View for RandomState {
    type V = (u32, u32, u32, u32);

    closed spec fn view(&self) -> (u32, u32, u32, u32) {
        (self.0[0], self.0[1], self.0[2], self.0[3])
    }
}

fn rotl(x: u32, n: u32) -> (r: u32)
    requires
        0 < n < 32,
    ensures
        r == rotate_left(x, n),
{
    (x << n) | (x >> (32 - n))
}

impl RandomState {
    /// Hands out the next number and advances the state.
    pub fn next(&mut self) -> (res: u32)
        ensures
            res == spec_output(old(self)@),
            final(self)@ == spec_advance(old(self)@),
    {
        let s0 = self.0[0];
        let s1 = self.0[1];
        let s2 = self.0[2];
        let s3 = self.0[3];
        let res = rotl(s0.wrapping_add(s3), 7).wrapping_add(s0);
        let t = s1 << 9u32;
        let n2 = s2 ^ s0;
        let n3 = s3 ^ s1;
        let n1 = s1 ^ n2;
        let n0 = s0 ^ n3;
        let n2 = n2 ^ t;
        assert(s3 ^ s1 == s1 ^ s3) by (bit_vector);
        let n3 = rotl(n3, 11);
        assert(n0 == s0 ^ s1 ^ s3 && n1 == s0 ^ s1 ^ s2 && n2 == s0 ^ s2 ^ t) by (bit_vector)
            requires
                n0 == s0 ^ (s3 ^ s1),
                n1 == s1 ^ (s2 ^ s0),
                n2 == (s2 ^ s0) ^ t,
        ;
        let next = [n0, n1, n2, n3];
        assert(next[0] == n0 && next[1] == n1 && next[2] == n2 && next[3] == n3);
        self.0 = next;
        res
    }

    /// Hands out the bit pattern of a 32-bit float in [2, 4): sign 0,
    /// exponent 128, and the low 23 bits of the next number as the mantissa.
    /// Less 3, that float is a uniform sample of [-1, 1).
    pub fn next_f32_bits(&mut self) -> (bits: u32)
        ensures
            bits == (spec_output(old(self)@) & 0x007F_FFFF) | 0x4000_0000,
            bits >> 23u32 == 0x80,
            final(self)@ == spec_advance(old(self)@),
    {
        let r = self.next();
        let bits = (r & 0b0_00000000_11111111111111111111111u32) | 0b0_10000000_00000000000000000000000u32;
        assert(((r & 0x007F_FFFFu32) | 0x4000_0000u32) >> 23u32 == 0x80u32) by (bit_vector);
        bits
    }

    /// The generator at its fixed seed.
    pub fn fixed() -> (r: Self)
        ensures
            r@ == spec_fixed_seed(),
    {
        RandomState([0xFEEDBACC, 0xDEADBEEF, 0xE6E6E6E6, 0xC8675309])
    }
}

impl Default for RandomState {
    /// The generator at its fixed seed.
    fn default() -> (r: Self)
        ensures
            r@ == spec_fixed_seed(),
    {
        Self::fixed()
    }
}

/// The generator is xoshiro128+ with rotations 7 and 11 and shift 9, stated
/// in arithmetic: from state (a, b, c, d) the number handed out is
/// `rotl7(a + d) + a` and the next state is (a ^ b ^ d, a ^ b ^ c,
/// a ^ c ^ (b * 2^9 mod 2^32), rotl11(b ^ d)), where `rotlk(x)` is
/// `x * 2^k mod 2^32 + x / 2^(32 - k)` and sums are taken modulo 2^32.
pub proof fn lemma_xoshiro_step(a: u32, b: u32, c: u32, d: u32)
    ensures
        ({
            let (a2, b2, c2, d2) = spec_advance((a, b, c, d));
            let sum = ((a as int + d as int) % 0x1_0000_0000) as u32;
            let bd = b ^ d;
            &&& a2 == a ^ b ^ d
            &&& b2 == a ^ b ^ c
            &&& c2 ^ a ^ c == ((b as int * 0x200) % 0x1_0000_0000) as u32
            &&& d2 as int == (bd as int * 0x800) % 0x1_0000_0000 + bd as int / 0x20_0000
            &&& spec_output((a, b, c, d)) as int == ((sum as int * 0x80) % 0x1_0000_0000 + sum as int / 0x200_0000
                + a as int) % 0x1_0000_0000
        }),
{
    let sum = ((a as int + d as int) % 0x1_0000_0000) as u32;
    let bd = b ^ d;
    assert(a ^ c ^ (b << 9u32) ^ a ^ c == b << 9u32) by (bit_vector);
    assert(b << 9u32 == ((b as int * 0x200) % 0x1_0000_0000) as u32) by (bit_vector);
    assert(((bd << 11u32) | (bd >> 21u32)) as int == (bd as int * 0x800) % 0x1_0000_0000 + bd as int / 0x20_0000)
        by (bit_vector);
    assert(((sum << 7u32) | (sum >> 25u32)) as int == (sum as int * 0x80) % 0x1_0000_0000 + sum as int / 0x200_0000)
        by (bit_vector);
}

} // verus!
