//! Tiny pseudo-random source: an xorshift64* generator whose seed is first
//! mixed with splitmix64 so nearby seeds diverge immediately. The shells
//! seed it from the wall clock; tests seed it with fixed numbers. Each draw
//! yields 53 random bits, the resolution of a double in `[0, 1)`.

use vstd::prelude::*;

verus! {

/// splitmix64 finaliser of a seed, never zero (xorshift needs a non-zero state).
pub open spec fn seed_state(seed: u64) -> u64 {
    let z0 = seed.wrapping_add(0x9E37_79B9_7F4A_7C15);
    let z1 = (z0 ^ (z0 >> 30u64)).wrapping_mul(0xBF58_476D_1CE4_E5B9);
    let z2 = (z1 ^ (z1 >> 27u64)).wrapping_mul(0x94D0_49BB_1331_11EB);
    let z3 = z2 ^ (z2 >> 31u64);
    if z3 == 0 {
        1
    } else {
        z3
    }
}

/// One xorshift64 step.
pub open spec fn xorshift(x: u64) -> u64 {
    let a = x ^ (x >> 12u64);
    let b = a ^ (a << 25u64);
    b ^ (b >> 27u64)
}

/// The 53 output bits drawn from a (new) state: the xorshift64* product's top bits.
pub open spec fn output_bits(x: u64) -> u64 {
    x.wrapping_mul(0x2545_F491_4F6C_DD1D) >> 11u64
}

/// 2^53: draws lie in `[0, 2^53)`; a draw `b` stands for the number `b / 2^53`.
pub const DRAW_RANGE: u64 = 0x20_0000_0000_0000;

/// The xorshift step never reaches the zero state from a non-zero one.
pub proof fn lemma_xorshift_nonzero(x: u64)
    requires
        x != 0,
    ensures
        xorshift(x) != 0,
{
    assert(x != 0 ==> ((x ^ (x >> 12u64)) ^ ((x ^ (x >> 12u64)) << 25u64)) ^ (((x ^ (x
        >> 12u64)) ^ ((x ^ (x >> 12u64)) << 25u64)) >> 27u64) != 0) by (bit_vector);
}

/// Draws are always below 2^53.
pub proof fn lemma_output_range(x: u64)
    ensures
        output_bits(x) < DRAW_RANGE,
{
    let p = x.wrapping_mul(0x2545_F491_4F6C_DD1D);
    assert(p >> 11u64 < 0x20_0000_0000_0000u64) by (bit_vector);
}

/// The state after `n` xorshift steps from `x`.
pub open spec fn state_after(x: u64, n: nat) -> u64
    decreases n,
{
    if n == 0 {
        x
    } else {
        xorshift(state_after(x, (n - 1) as nat))
    }
}

/// The `n`-th draw (counting from 0) of a generator seeded with `seed`.
pub open spec fn nth_draw(seed: u64, n: nat) -> u64 {
    output_bits(state_after(seed_state(seed), n + 1))
}

pub struct Rng {
    state: u64,
    /// The seed the generator was made with.
    seed: Ghost<u64>,
    /// How many draws it has made.
    count: Ghost<nat>,
}

impl Clone for Rng {
    fn clone(&self) -> (r: Self)
        ensures
            r@ == self@,
            r.seed() == self.seed(),
            r.draws() == self.draws(),
    {
        proof {
            use_type_invariant(self);
        }
        Rng { state: self.state, seed: self.seed, count: self.count }
    }
}

impl View for Rng {
    type V = u64;

    closed spec fn view(&self) -> u64 {
        self.state
    }
}

impl Rng {
    /// The state is the seed's, advanced once per draw made.
    #[verifier::type_invariant]
    spec fn follows_seed(self) -> bool {
        &&& self.state != 0
        &&& self.state == state_after(seed_state(self.seed@), self.count@)
    }

    /// The seed the generator was made with.
    pub closed spec fn seed(&self) -> u64 {
        self.seed@
    }

    /// The number of draws made since seeding.
    pub closed spec fn draws(&self) -> nat {
        self.count@
    }

    /// Deterministic seed.
    pub fn seeded(seed: u64) -> (r: Self)
        ensures
            r@ == seed_state(seed),
            r@ != 0,
            r.seed() == seed,
            r.draws() == 0,
    {
        let mut z = seed.wrapping_add(0x9E37_79B9_7F4A_7C15);
        z = (z ^ (z >> 30u64)).wrapping_mul(0xBF58_476D_1CE4_E5B9);
        z = (z ^ (z >> 27u64)).wrapping_mul(0x94D0_49BB_1331_11EB);
        z = z ^ (z >> 31u64);
        Self { state: if z == 0 { 1 } else { z }, seed: Ghost(seed), count: Ghost(0) }
    }

    /// Advance the generator and take 53 random bits (a uniform float in
    /// `[0, 1)` is these bits divided by 2^53). The `n`-th draw of a
    /// generator depends on its seed alone: it is `nth_draw(seed, n)`, so two
    /// generators with the same seed give the same sequence.
    pub fn next_bits(&mut self) -> (b: u64)
        ensures
            final(self)@ == xorshift(old(self)@),
            old(self)@ != 0,
            final(self)@ != 0,
            b == output_bits(final(self)@),
            b < DRAW_RANGE,
            final(self).seed() == old(self).seed(),
            final(self).draws() == old(self).draws() + 1,
            b == nth_draw(old(self).seed(), old(self).draws()),
    {
        proof {
            use_type_invariant(&*self);
            lemma_xorshift_nonzero(self.state);
        }
        let mut x = self.state;
        x = x ^ (x >> 12u64);
        x = x ^ (x << 25u64);
        x = x ^ (x >> 27u64);
        let ghost n: nat = self.count@ + 1;
        assert(state_after(seed_state(self.seed@), n) == x);
        *self = Rng { state: x, seed: self.seed, count: Ghost(n) };
        proof {
            lemma_output_range(x);
        }
        x.wrapping_mul(0x2545_F491_4F6C_DD1D) >> 11u64
    }

    /// A random sign: a draw below one half gives -1, any other 1.
    pub fn sign(&mut self) -> (s: i8)
        ensures
            final(self)@ == xorshift(old(self)@),
            s == (if output_bits(final(self)@) < DRAW_RANGE / 2 {
                -1i8
            } else {
                1i8
            }),
            final(self).seed() == old(self).seed(),
            final(self).draws() == old(self).draws() + 1,
            s == (if nth_draw(old(self).seed(), old(self).draws()) < DRAW_RANGE / 2 {
                -1i8
            } else {
                1i8
            }),
    {
        let b = self.next_bits();
        if b < DRAW_RANGE / 2 {
            -1
        } else {
            1
        }
    }
}

} // verus!
