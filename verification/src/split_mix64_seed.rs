//! Derivation of SplitMix64 state words from a raw seed.
//!
//! A caller-supplied or entropy-drawn 64-bit seed is advanced by the
//! golden-ratio increment and passed through a strong bit mixer before
//! it becomes the initial state word of a [`crate::split_mix64::SplitMix64`].
//!
//! The entropy path runs over a [`SeedContext`]: a persistent word,
//! lazily initialized from a raw seed and advanced by the golden-ratio
//! increment on every request, so that sequential requests on one
//! context never reuse a word. Process-wide callers keep one context
//! behind a lock and thread it through construction calls.

use vstd::prelude::*;

use crate::bit_mix::lemma_i64_to_u64_roundtrip;
use crate::bit_mix::lemma_u64_to_i64_roundtrip;
use crate::bit_mix::rrxmrrxmsx;
use crate::bit_mix::rrxmrrxmsx_spec;
use crate::seed::raw_seed_with;
use crate::seed::SeedState;

verus! {

/// The golden ratio scaled to 64 bits.
pub const GOLDEN: u64 = 0x9e3779b97f4a7c15;

/// Stands in for an explicit seed of zero, so that a zero seed does not
/// propagate a weak state word.
pub const ZERO_SEED_SUBSTITUTE: u64 = 0xffea4f554090c1d1;

/// The SplitMix64 state word derived from caller-supplied seed word `s`:
/// zero is first replaced by a fixed non-zero substitute, then the word
/// is advanced by the golden-ratio increment and mixed.
pub open spec fn seed_from_spec(s: u64) -> u64 {
    let w = if s == 0 { ZERO_SEED_SUBSTITUTE } else { s };
    rrxmrrxmsx_spec(w.wrapping_add(GOLDEN))
}

/// Derives the initial SplitMix64 state word from the caller-supplied
/// seed `seed`.
pub fn seed_from(seed: i64) -> (r: i64)
    ensures
        r as u64 == seed_from_spec(seed as u64),
{
    let mut s = #[verifier::truncate] (seed as u64);
    if s == 0 {
        s = ZERO_SEED_SUBSTITUTE;
    }
    let w = s.wrapping_add(GOLDEN);
    proof {
        lemma_u64_to_i64_roundtrip(w);
        lemma_u64_to_i64_roundtrip(rrxmrrxmsx_spec(w));
    }
    rrxmrrxmsx(#[verifier::truncate] (w as i64))
}

/// The state of the entropy-seeding path: the raw-seed subsystem state
/// and the persistent word from which SplitMix64 state words are
/// derived. The word is zero until the first request initializes it
/// from a raw seed.
pub struct SeedContext {
    raw: SeedState,
    word: u64,
}

impl SeedContext {
    /// The persistent word, or zero before the first request.
    pub closed spec fn word_spec(self) -> u64 {
        self.word
    }

    /// The embedded raw-seed subsystem state.
    pub closed spec fn raw_spec(self) -> SeedState {
        self.raw
    }

    /// A fresh context: no word drawn yet, and a fresh raw-seed state.
    pub fn new() -> (r: SeedContext)
        ensures
            r.word_spec() == 0,
            r.raw_spec().uniquifier_spec() == crate::seed::SEED_UNIQUIFIER_INIT,
            r.raw_spec().last_seed_spec() == 0,
    {
        SeedContext { raw: SeedState::new(), word: 0 }
    }
}

/// How one seeding request evolves a [`SeedContext`]: an already
/// initialized word advances by the golden-ratio increment (and so
/// always changes); a zero word is first drawn from a non-zero raw
/// seed, then advanced.
pub open spec fn seed_step_spec(pre: SeedContext, post: SeedContext) -> bool {
    &&& (pre.word_spec() != 0 ==> {
        &&& post.word_spec() == pre.word_spec().wrapping_add(GOLDEN)
        &&& post.word_spec() != pre.word_spec()
        &&& post.raw_spec() == pre.raw_spec()
    })
    &&& (pre.word_spec() == 0 ==> exists|raw: u64|
        raw != 0 && post.word_spec() == raw.wrapping_add(GOLDEN))
}

/// Derives a fresh SplitMix64 state word from the context: the
/// persistent word (lazily initialized from a raw seed) is advanced by
/// the golden-ratio increment and mixed. Sequential requests on one
/// context advance distinct words.
pub fn seed_with(ctx: &mut SeedContext) -> (r: i64)
    ensures
        seed_step_spec(*old(ctx), *final(ctx)),
        r as u64 == rrxmrrxmsx_spec(final(ctx).word_spec()),
{
    let ghost pre = *ctx;
    if ctx.word == 0 {
        let raw = raw_seed_with(&mut ctx.raw);
        proof {
            lemma_i64_to_u64_roundtrip(raw);
        }
        ctx.word = #[verifier::truncate] (raw as u64);
    }
    let ghost base = ctx.word;
    ctx.word = ctx.word.wrapping_add(GOLDEN);
    proof {
        if pre.word_spec() == 0 {
            assert(base != 0 && ctx.word_spec() == base.wrapping_add(GOLDEN));
        }
        lemma_u64_to_i64_roundtrip(ctx.word);
        lemma_u64_to_i64_roundtrip(rrxmrrxmsx_spec(ctx.word));
    }
    rrxmrrxmsx(#[verifier::truncate] (ctx.word as i64))
}

/// Derives a fresh SplitMix64 state word from a fresh context and the
/// live clock: a non-zero raw seed advanced by the golden-ratio
/// increment and mixed. Callers that need sequential requests to stay
/// distinct keep one [`SeedContext`] and call [`seed_with`] instead.
pub fn seed() -> (r: i64)
    ensures
        exists|raw: u64|
            raw != 0 && r as u64 == rrxmrrxmsx_spec(raw.wrapping_add(GOLDEN)),
{
    let mut ctx = SeedContext::new();
    seed_with(&mut ctx)
}

} // verus!
