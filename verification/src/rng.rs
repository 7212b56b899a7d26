//! The deterministic seeded generator behind mission yields.
//!
//! A permuted congruential generator with 128-bit state and stream and
//! 64-bit output (xorshift-low, random-rotation output function), seeded
//! from a single 64-bit value through an auxiliary 64-bit generator. Every
//! step is a pure function of the state, which is what makes whole-game
//! determinism provable: equal seeds and equal command sequences pass
//! through identical generator states.

use vstd::prelude::*;

verus! {

use vstd::wrapping::u128_specs;
use vstd::wrapping::u64_specs;

/// The default multiplier of the 128-bit congruential step.
pub const PCG_MULTIPLIER: u128 = 0x2360_ED05_1FC6_5DA4_4385_DF64_9FCC_F645;

/// Multiplier of the auxiliary 64-bit seeding generator.
pub const SEED_MULTIPLIER: u64 = 6364136223846793005;

/// Increment of the auxiliary 64-bit seeding generator.
pub const SEED_INCREMENT: u64 = 11634580027462260723;

/// Rotate a 64-bit word right by `r < 64` positions.
pub open spec fn spec_rotr64(x: u64, r: u64) -> u64
    recommends
        r < 64,
{
    if r == 0 {
        x
    } else {
        ((x >> r) | (x << ((64 - r) as u64))) as u64
    }
}

/// Rotate a 32-bit word right by `r < 32` positions.
pub open spec fn spec_rotr32(x: u32, r: u32) -> u32
    recommends
        r < 32,
{
    if r == 0 {
        x
    } else {
        ((x >> r) | (x << ((32 - r) as u32))) as u32
    }
}

/// One state step of the auxiliary seeding generator.
pub open spec fn spec_seed_step(s: u64) -> u64 {
    u64_specs::wrapping_add(u64_specs::wrapping_mul(s, SEED_MULTIPLIER), SEED_INCREMENT)
}

/// The output word of the auxiliary seeding generator at state `s`.
pub open spec fn spec_seed_out(s: u64) -> u32 {
    let xorshifted = (((s >> 18) ^ s) >> 27) as u32;
    let rot = (s >> 59) as u32;
    spec_rotr32(xorshifted, rot)
}

/// The seeding generator's state after `n` steps from `seed`.
pub open spec fn spec_seed_state(seed: u64, n: nat) -> u64
    decreases n,
{
    if n == 0 {
        seed
    } else {
        spec_seed_step(spec_seed_state(seed, (n - 1) as nat))
    }
}

/// The `n`-th 32-bit seeding word (the generator steps before each output).
pub open spec fn spec_seed_word(seed: u64, n: nat) -> u32 {
    spec_seed_out(spec_seed_state(seed, n + 1))
}

/// Assemble four 32-bit words into a 128-bit value, least significant first.
pub open spec fn spec_combine128(w0: u32, w1: u32, w2: u32, w3: u32) -> u128 {
    (w0 as u128) | ((w1 as u128) << 32) | ((w2 as u128) << 64) | ((w3 as u128) << 96)
}

/// The deterministic generator carried in the game state.
#[derive(Clone, Copy, Debug, PartialEq, Eq, Structural)]
pub struct SeededRng {
    pub state: u128,
    pub increment: u128,
}

impl SeededRng {
    /// The state after one congruential step.
    pub open spec fn spec_step(self) -> SeededRng {
        SeededRng {
            state: u128_specs::wrapping_add(
                u128_specs::wrapping_mul(self.state, PCG_MULTIPLIER),
                self.increment,
            ),
            increment: self.increment,
        }
    }

    /// The output word read off a state.
    pub open spec fn spec_output(state: u128) -> u64 {
        let rot = (state >> 122) as u64;
        let xsl = ((state >> 64) as u64) ^ (state as u64);
        spec_rotr64(xsl, rot)
    }

    /// The generator a given 64-bit seed produces.
    pub open spec fn spec_from_seed(seed: u64) -> SeededRng {
        let w0 = spec_seed_word(seed, 0);
        let w1 = spec_seed_word(seed, 1);
        let w2 = spec_seed_word(seed, 2);
        let w3 = spec_seed_word(seed, 3);
        let w4 = spec_seed_word(seed, 4);
        let w5 = spec_seed_word(seed, 5);
        let w6 = spec_seed_word(seed, 6);
        let w7 = spec_seed_word(seed, 7);
        let state0 = spec_combine128(w0, w1, w2, w3);
        let increment = spec_combine128(w4, w5, w6, w7) | 1;
        let seeded = SeededRng {
            state: u128_specs::wrapping_add(state0, increment),
            increment,
        };
        seeded.spec_step()
    }

    /// Advance the auxiliary seeding generator and read one word.
    fn seed_word(state: &mut u64) -> (r: u32)
        ensures
            *final(state) == spec_seed_step(*old(state)),
            r == spec_seed_out(*final(state)),
    {
        *state = state.wrapping_mul(SEED_MULTIPLIER).wrapping_add(SEED_INCREMENT);
        let s = *state;
        let xorshifted = #[verifier::truncate] ((((s >> 18) ^ s) >> 27) as u32);
        let rot = #[verifier::truncate] ((s >> 59) as u32);
        proof {
            assert(s >> 59 < 32) by (bit_vector);
        }
        if rot == 0 {
            xorshifted
        } else {
            (xorshifted >> rot) | (xorshifted << (32 - rot))
        }
    }

    /// Build the generator from a 64-bit seed.
    #[verifier::rlimit(60)]
    pub fn from_seed(seed: u64) -> (r: SeededRng)
        ensures
            r == SeededRng::spec_from_seed(seed),
    {
        let mut s: u64 = seed;
        proof {
            assert(spec_seed_state(seed, 0) == seed);
        }
        let w0 = SeededRng::seed_word(&mut s);
        proof {
            assert(s == spec_seed_state(seed, 1));
            assert(w0 == spec_seed_word(seed, 0));
        }
        let w1 = SeededRng::seed_word(&mut s);
        proof {
            assert(s == spec_seed_state(seed, 2));
            assert(w1 == spec_seed_word(seed, 1));
        }
        let w2 = SeededRng::seed_word(&mut s);
        proof {
            assert(s == spec_seed_state(seed, 3));
            assert(w2 == spec_seed_word(seed, 2));
        }
        let w3 = SeededRng::seed_word(&mut s);
        proof {
            assert(s == spec_seed_state(seed, 4));
            assert(w3 == spec_seed_word(seed, 3));
        }
        let w4 = SeededRng::seed_word(&mut s);
        proof {
            assert(s == spec_seed_state(seed, 5));
            assert(w4 == spec_seed_word(seed, 4));
        }
        let w5 = SeededRng::seed_word(&mut s);
        proof {
            assert(s == spec_seed_state(seed, 6));
            assert(w5 == spec_seed_word(seed, 5));
        }
        let w6 = SeededRng::seed_word(&mut s);
        proof {
            assert(s == spec_seed_state(seed, 7));
            assert(w6 == spec_seed_word(seed, 6));
        }
        let w7 = SeededRng::seed_word(&mut s);
        proof {
            assert(s == spec_seed_state(seed, 8));
            assert(w7 == spec_seed_word(seed, 7));
        }
        let state0 = SeededRng::combine128(w0, w1, w2, w3);
        let increment = SeededRng::combine128(w4, w5, w6, w7) | 1;
        let mut rng = SeededRng { state: state0.wrapping_add(increment), increment };
        let _ = rng.next_u64();
        rng
    }

    /// Assemble four 32-bit words into a 128-bit value, least significant
    /// first.
    fn combine128(w0: u32, w1: u32, w2: u32, w3: u32) -> (r: u128)
        ensures
            r == spec_combine128(w0, w1, w2, w3),
    {
        (w0 as u128) | ((w1 as u128) << 32) | ((w2 as u128) << 64) | ((w3 as u128) << 96)
    }

    /// Step the generator and return the next output word.
    pub fn next_u64(&mut self) -> (r: u64)
        ensures
            *final(self) == old(self).spec_step(),
            r == SeededRng::spec_output(final(self).state),
    {
        self.state = self.state.wrapping_mul(PCG_MULTIPLIER).wrapping_add(self.increment);
        let s = self.state;
        let rot = #[verifier::truncate] ((s >> 122) as u64);
        let xsl = (#[verifier::truncate] ((s >> 64) as u64)) ^ (#[verifier::truncate] (s as u64));
        proof {
            assert(s >> 122 < 64) by (bit_vector);
        }
        if rot == 0 {
            xsl
        } else {
            (xsl >> rot) | (xsl << (64 - rot))
        }
    }

    /// A yield drawn from `min..max`: the next output reduced into the span.
    /// An empty span returns `min` without advancing the generator.
    pub fn gen_range_u16(&mut self, min: u16, max: u16) -> (r: u16)
        ensures
            max > min ==> {
                &&& *final(self) == old(self).spec_step()
                &&& r == min + SeededRng::spec_output(final(self).state) % ((max - min) as u64)
            },
            max <= min ==> *final(self) == *old(self) && r == min,
    {
        if max > min {
            let span = (max - min) as u64;
            let v = self.next_u64() % span;
            (min as u64 + v) as u16
        } else {
            min
        }
    }
}

} // verus!
