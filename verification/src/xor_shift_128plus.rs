//! The XorShift128Plus bootstrap generator.
//!
//! A two-word generator with the standard xorshift+ recurrence. It is
//! seeded from a [`SplitMix64`] stream and then run for twenty warm-up
//! steps, and serves only to seed the larger user-facing generators, so
//! that their initial arrays are well mixed rather than raw copies of
//! sequential SplitMix64 output.

use vstd::prelude::*;

use crate::bit_mix::lemma_u64_to_i64_roundtrip;
use crate::bit_mix::xnasam_spec;
use crate::split_mix64::mix_gamma_spec;
use crate::split_mix64::SplitMix64;
use crate::bit_mix::rrxmrrxmsx_spec;
use crate::split_mix64_seed::seed_from_spec;
use crate::split_mix64_seed::seed_step_spec;
use crate::split_mix64_seed::SeedContext;
use crate::split_mix64_seed::GOLDEN;

verus! {

/// Warm-up steps run after seeding, discarding output, to move the
/// state away from any weak region reachable directly from a seed.
pub const ESCAPE_STEPS: u64 = 20;

/// A two-word xorshift+ generator.
pub struct XorShift128Plus {
    x0: u64,
    x1: u64,
}

impl XorShift128Plus {
    /// The first state word.
    pub closed spec fn x0_spec(self) -> u64 {
        self.x0
    }

    /// The second state word.
    pub closed spec fn x1_spec(self) -> u64 {
        self.x1
    }

    /// The generator holding exactly the given two state words.
    pub closed spec fn with_words(x0: u64, x1: u64) -> XorShift128Plus {
        XorShift128Plus { x0, x1 }
    }

    /// The output of the next step: the sum of the two state words.
    pub open spec fn next_out_spec(self) -> u64 {
        self.x0_spec().wrapping_add(self.x1_spec())
    }

    /// The second state word after one step of the xorshift+ recurrence.
    pub open spec fn next_x1_spec(self) -> u64 {
        let s0 = self.x1_spec();
        let t = self.x0_spec() ^ (self.x0_spec() << 23);
        t ^ s0 ^ (t >> 18) ^ (s0 >> 5)
    }

    /// The state after one step.
    pub open spec fn step_spec(self) -> XorShift128Plus {
        XorShift128Plus::with_words(self.x1_spec(), self.next_x1_spec())
    }

    /// The state after `k` steps.
    pub open spec fn steps_spec(self, k: nat) -> XorShift128Plus
        decreases k,
    {
        if k == 0 {
            self
        } else {
            self.steps_spec((k - 1) as nat).step_spec()
        }
    }

    /// The output drawn at step `k` of the stream starting at this
    /// state (the first output drawn has `k == 0`).
    pub open spec fn out_at_spec(self, k: nat) -> u64 {
        self.steps_spec(k).next_out_spec()
    }

    /// The generator freshly seeded from the SplitMix64 stream of `sm`:
    /// the two state words are the next two outputs of `sm`.
    pub open spec fn seeded_from(sm: SplitMix64) -> XorShift128Plus {
        XorShift128Plus::with_words(
            xnasam_spec(sm.next_state_spec()),
            xnasam_spec(sm.next_state_spec().wrapping_add(sm.gamma_spec())),
        )
    }

    /// The generator obtained from a SplitMix64 whose initial state
    /// word is `st0`: the first two SplitMix64 outputs become the
    /// state, and twenty warm-up steps are run.
    pub open spec fn from_state_spec(st0: u64) -> XorShift128Plus {
        let gamma = mix_gamma_spec(st0.wrapping_add(GOLDEN));
        XorShift128Plus::with_words(
            xnasam_spec(st0.wrapping_add(gamma)),
            xnasam_spec(st0.wrapping_add(gamma).wrapping_add(gamma)),
        ).steps_spec(ESCAPE_STEPS as nat)
    }

    /// The generator obtained deterministically from the caller-supplied
    /// seed word: the seed-derived SplitMix64 state word, seeded and
    /// warmed up as in `from_state_spec`.
    pub open spec fn from_seed_spec(seed: u64) -> XorShift128Plus {
        XorShift128Plus::from_state_spec(seed_from_spec(seed))
    }

    /// Runs one step of the xorshift+ recurrence and returns the output
    /// word: the sum of the two state words before the step.
    pub fn next_long(&mut self) -> (r: i64)
        ensures
            *final(self) == old(self).step_spec(),
            r as u64 == old(self).next_out_spec(),
            r == old(self).next_out_spec() as i64,
    {
        let s0 = self.x1;
        let s1 = self.x0;
        let s = s1.wrapping_add(s0);
        let t = s1 ^ (s1 << 23);
        self.x1 = t ^ s0 ^ (t >> 18) ^ (s0 >> 5);
        self.x0 = s0;
        proof {
            lemma_u64_to_i64_roundtrip(s);
        }
        #[verifier::truncate] (s as i64)
    }

    /// Creates a generator seeded from process entropy.
    pub fn new() -> (r: XorShift128Plus)
        ensures
            exists|sm: SplitMix64|
                r == XorShift128Plus::seeded_from(sm).steps_spec(ESCAPE_STEPS as nat),
    {
        let mut rng = SplitMix64::new();
        let ghost sm0 = rng;
        let r = XorShift128Plus::internal_new(&mut rng);
        proof {
            assert(r == XorShift128Plus::seeded_from(sm0).steps_spec(ESCAPE_STEPS as nat));
        }
        r
    }

    /// Creates a generator seeded from the entropy context `ctx`,
    /// through a SplitMix64 drawn from the context's seed stream.
    pub fn new_with(ctx: &mut SeedContext) -> (r: XorShift128Plus)
        ensures
            seed_step_spec(*old(ctx), *final(ctx)),
            r == XorShift128Plus::from_state_spec(rrxmrrxmsx_spec(final(ctx).word_spec())),
    {
        let mut rng = SplitMix64::new_with(ctx);
        XorShift128Plus::internal_new(&mut rng)
    }

    /// Creates a generator deterministically from `seed`.
    pub fn new_from(seed: i64) -> (r: XorShift128Plus)
        ensures
            r == XorShift128Plus::from_seed_spec(seed as u64),
    {
        let mut rng = SplitMix64::new_from(seed);
        XorShift128Plus::internal_new(&mut rng)
    }

    /// Seeds the two state words from the next two outputs of `rng`,
    /// then runs the warm-up steps.
    fn internal_new(rng: &mut SplitMix64) -> (r: XorShift128Plus)
        ensures
            r == XorShift128Plus::seeded_from(*old(rng)).steps_spec(ESCAPE_STEPS as nat),
    {
        let a = rng.next_long();
        let b = rng.next_long();
        let mut instance = XorShift128Plus {
            x0: #[verifier::truncate] (a as u64),
            x1: #[verifier::truncate] (b as u64),
        };
        proof {
            crate::bit_mix::lemma_i64_to_u64_roundtrip(a);
            crate::bit_mix::lemma_i64_to_u64_roundtrip(b);
        }
        instance.escape();
        instance
    }

    /// Runs the warm-up steps, discarding their outputs.
    fn escape(&mut self)
        ensures
            *final(self) == old(self).steps_spec(ESCAPE_STEPS as nat),
    {
        let ghost start = *self;
        let mut i: u64 = 0;
        while i < ESCAPE_STEPS
            invariant
                i <= ESCAPE_STEPS,
                start == *old(self),
                *self == start.steps_spec(i as nat),
            decreases ESCAPE_STEPS - i,
        {
            let _ = self.next_long();
            i = i + 1;
        }
    }
}

impl Default for XorShift128Plus {
    /// Equivalent to [`XorShift128Plus::new`]: a fresh entropy-seeded
    /// generator.
    fn default() -> (r: XorShift128Plus)
        ensures
            exists|sm: SplitMix64|
                r == XorShift128Plus::seeded_from(sm).steps_spec(ESCAPE_STEPS as nat),
    {
        XorShift128Plus::new()
    }
}

} // verus!
