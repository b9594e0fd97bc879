//! The SplitMix64 bootstrap generator.
//!
//! A minimal one-word generator: the state advances by a per-instance
//! odd "gamma" increment (a Weyl sequence) and each output is the new
//! state passed through a bit mixer. It exists to turn one seed word
//! into an independent stream for initializing the other generators.

use vstd::prelude::*;

use crate::bit_mix::lemma_u64_to_i64_roundtrip;
use crate::bit_mix::rrxmrrxmsx;
use crate::bit_mix::rrxmrrxmsx_spec;
use crate::bit_mix::stafford_mix04;
use crate::bit_mix::stafford_mix04_spec;
use crate::bit_mix::xnasam;
use crate::bit_mix::xnasam_spec;
use crate::split_mix64_seed::seed;
use crate::split_mix64_seed::seed_from;
use crate::split_mix64_seed::seed_from_spec;
use crate::split_mix64_seed::seed_step_spec;
use crate::split_mix64_seed::seed_with;
use crate::split_mix64_seed::SeedContext;
use crate::split_mix64_seed::GOLDEN;

verus! {

/// Alternating 0101... pattern used to repair a gamma with too few bit
/// transitions.
pub const GAMMA_REPAIR_MASK: u64 = 0xaaaaaaaaaaaaaaaa;

/// Fewest 01/10 transitions accepted in a gamma word.
pub const MIN_GAMMA_TRANSITIONS: u32 = 24;

/// The number of set bits among the low `k` bits of `v`.
pub open spec fn ones_below(v: u64, k: nat) -> nat
    decreases k,
{
    if k == 0 {
        0
    } else {
        ones_below(v, (k - 1) as nat) + (if (v >> ((k - 1) as u64)) & 1 == 1 {
            1nat
        } else {
            0nat
        })
    }
}

/// The gamma word derived from `v`: mixed, forced odd, and XORed with an
/// alternating pattern if fewer than 24 bits change between the word and
/// its single-bit right shift.
pub open spec fn mix_gamma_spec(v: u64) -> u64 {
    let g = rrxmrrxmsx_spec(v) | 1;
    if ones_below(g ^ (g >> 1), 64) < MIN_GAMMA_TRANSITIONS {
        g ^ GAMMA_REPAIR_MASK
    } else {
        g
    }
}

/// Counts the set bits of `v`.
fn count_ones64(v: u64) -> (r: u32)
    ensures
        r == ones_below(v, 64),
{
    let mut i: u64 = 0;
    let mut c: u32 = 0;
    while i < 64
        invariant
            i <= 64,
            c == ones_below(v, i as nat),
            c <= i,
        decreases 64 - i,
    {
        let b = (v >> i) & 1;
        proof {
            assert((v >> i) & 1 <= 1) by (bit_vector);
        }
        c = c + (#[verifier::truncate] (b as u32));
        i = i + 1;
    }
    c
}

/// Forcing the low bit leaves the word odd, and the repair mask keeps
/// it so.
proof fn lemma_forced_odd(g: u64)
    by (bit_vector)
    ensures
        (g | 1) & 1 == 1,
        ((g | 1) ^ 0xaaaaaaaaaaaaaaaa) & 1 == 1,
{
}

/// Derives a Weyl increment from `v`; the result is exactly
/// `mix_gamma_spec` of the input and is always odd.
pub fn mix_gamma(v: i64) -> (r: i64)
    ensures
        r as u64 == mix_gamma_spec(v as u64),
        (r as u64) & 1 == 1,
{
    let m = rrxmrrxmsx(v);
    proof {
        lemma_u64_to_i64_roundtrip(rrxmrrxmsx_spec(v as u64));
    }
    let g = (#[verifier::truncate] (m as u64)) | 1;
    let n = count_ones64(g ^ (g >> 1));
    proof {
        lemma_forced_odd(rrxmrrxmsx_spec(v as u64));
        lemma_u64_to_i64_roundtrip(mix_gamma_spec(v as u64));
    }
    if n < MIN_GAMMA_TRANSITIONS {
        #[verifier::truncate] ((g ^ GAMMA_REPAIR_MASK) as i64)
    } else {
        #[verifier::truncate] (g as i64)
    }
}

/// A one-word Weyl-sequence generator with a mixed output stage, used
/// to bootstrap the state of the other generators from a single seed.
pub struct SplitMix64 {
    state: u64,
    // Weyl generator step value
    gamma: u64,
}

impl SplitMix64 {
    /// The current state word.
    pub closed spec fn state_spec(self) -> u64 {
        self.state
    }

    /// The per-instance Weyl increment.
    pub closed spec fn gamma_spec(self) -> u64 {
        self.gamma
    }

    /// The gamma word is odd, which makes the Weyl sequence of states
    /// have full period.
    pub open spec fn inv(self) -> bool {
        self.gamma_spec() & 1 == 1
    }

    /// The state word after one step.
    pub open spec fn next_state_spec(self) -> u64 {
        self.state_spec().wrapping_add(self.gamma_spec())
    }

    /// Creates a generator seeded from process entropy. Its gamma is
    /// derived from its initial state word by `mix_gamma_spec`.
    pub fn new() -> (r: SplitMix64)
        ensures
            r.inv(),
            r.gamma_spec() == mix_gamma_spec(r.state_spec().wrapping_add(GOLDEN)),
    {
        SplitMix64::internal_new(seed())
    }

    /// Creates a generator seeded from the entropy context `ctx`: the
    /// initial state word is the next word of the context's seed
    /// stream, mixed.
    pub fn new_with(ctx: &mut SeedContext) -> (r: SplitMix64)
        ensures
            seed_step_spec(*old(ctx), *final(ctx)),
            r.inv(),
            r.state_spec() == rrxmrrxmsx_spec(final(ctx).word_spec()),
            r.gamma_spec() == mix_gamma_spec(r.state_spec().wrapping_add(GOLDEN)),
    {
        SplitMix64::internal_new(seed_with(ctx))
    }

    /// Creates a generator deterministically from `seed`.
    pub fn new_from(seed: i64) -> (r: SplitMix64)
        ensures
            r.inv(),
            r.state_spec() == seed_from_spec(seed as u64),
            r.gamma_spec() == mix_gamma_spec(
                seed_from_spec(seed as u64).wrapping_add(GOLDEN),
            ),
    {
        SplitMix64::internal_new(seed_from(seed))
    }

    /// Advances the state by gamma and returns the mixed 64-bit output.
    pub fn next_long(&mut self) -> (r: i64)
        ensures
            final(self).state_spec() == old(self).next_state_spec(),
            final(self).gamma_spec() == old(self).gamma_spec(),
            r as u64 == xnasam_spec(old(self).next_state_spec()),
    {
        self.state = self.state.wrapping_add(self.gamma);
        proof {
            lemma_u64_to_i64_roundtrip(self.state);
            lemma_u64_to_i64_roundtrip(xnasam_spec(self.state));
        }
        xnasam(#[verifier::truncate] (self.state as i64))
    }

    /// Advances the state by gamma and returns the mixed 32-bit output.
    pub fn next_int(&mut self) -> (r: i32)
        ensures
            final(self).state_spec() == old(self).next_state_spec(),
            final(self).gamma_spec() == old(self).gamma_spec(),
            r as u32 == stafford_mix04_spec(old(self).next_state_spec()),
    {
        self.state = self.state.wrapping_add(self.gamma);
        proof {
            lemma_u64_to_i64_roundtrip(self.state);
        }
        let r = stafford_mix04(#[verifier::truncate] (self.state as i64));
        proof {
            lemma_u32_to_i32_roundtrip(stafford_mix04_spec(self.state));
        }
        r
    }

    /// Builds the generator from a prepared state word: the gamma comes
    /// from the state word advanced by the golden-ratio increment.
    fn internal_new(seed: i64) -> (r: SplitMix64)
        ensures
            r.inv(),
            r.state_spec() == seed as u64,
            r.gamma_spec() == mix_gamma_spec((seed as u64).wrapping_add(GOLDEN)),
    {
        let state = #[verifier::truncate] (seed as u64);
        let w = state.wrapping_add(GOLDEN);
        proof {
            lemma_u64_to_i64_roundtrip(w);
        }
        let gamma_i = crate::split_mix64::mix_gamma(#[verifier::truncate] (w as i64));
        SplitMix64 { state, gamma: #[verifier::truncate] (gamma_i as u64) }
    }
}

impl Default for SplitMix64 {
    /// Equivalent to [`SplitMix64::new`]: a fresh entropy-seeded
    /// generator.
    fn default() -> (r: SplitMix64)
        ensures
            r.inv(),
            r.gamma_spec() == mix_gamma_spec(r.state_spec().wrapping_add(GOLDEN)),
    {
        SplitMix64::new()
    }
}

/// Casting a 32-bit word to signed and back preserves the bits.
proof fn lemma_u32_to_i32_roundtrip(x: u32)
    by (bit_vector)
    ensures
        (x as i32) as u32 == x,
{
}

} // verus!
