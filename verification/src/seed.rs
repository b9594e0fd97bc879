//! Seed acquisition.
//!
//! Supplies non-zero 64-bit seeds for bootstrapping generators when the
//! caller does not provide one. A [`SeedState`] carries the two words of
//! the subsystem: a multiplicatively advancing uniquifier and the last
//! seed handed out. Each request advances the uniquifier, folds in a
//! nanosecond clock reading and passes the word through the strongest
//! bit mixer; candidates equal to zero or to the previous seed are
//! rejected and retried, so consecutive seeds from one state are always
//! non-zero and pairwise distinct.

use vstd::prelude::*;

use crate::bit_mix::stafford_mix13;
use crate::bit_mix::stafford_mix13_spec;

verus! {

/// First value of the uniquifier sequence.
pub const SEED_UNIQUIFIER_INIT: u64 = 0x1ed8b55fac9dec;

/// Multiplier that advances the uniquifier sequence; a full-period
/// multiplicative congruential step from L'Ecuyer's tables of linear
/// congruential generators of good lattice structure.
pub const SEED_UNIQUIFIER_MUL: u64 = 0x106689d45497fdb5;

/// Seconds from the Unix epoch to the clock reference point of this
/// subsystem, 2022-01-01 00:00:00 UTC.
pub const EPOCH_OFFSET_SECS: u64 = 1640995200;

/// Bound on the number of rejected candidates before a request falls
/// back to a deterministic escape value. A candidate is rejected with
/// probability about 2^-63, so the bound is never reached in practice.
const MAX_SEED_ATTEMPTS: u64 = 64;

/// The two words of the seed-acquisition subsystem.
pub struct SeedState {
    uniquifier: u64,
    last_seed: u64,
}

/// The candidate derived from uniquifier word `u` and clock reading `t`:
/// the advanced uniquifier XORed with `t`, passed through the mixer.
pub open spec fn seed_candidate_spec(u: u64, t: u64) -> u64 {
    stafford_mix13_spec(u.wrapping_mul(SEED_UNIQUIFIER_MUL) ^ t)
}

/// Relies on std::time::SystemTime::now: reads the wall clock and
/// converts it to nanoseconds elapsed since `epoch_secs` seconds after
/// the Unix epoch. Nothing is promised of the result, since it depends
/// on the machine's clock. Aborts the process if the clock reads before
/// the reference point, the one fatal condition of this subsystem. The
/// bound on `epoch_secs` (the last second of the year 9999) keeps the
/// reference point representable, so forming it cannot overflow.
#[verifier::external_body]
fn clock_nanos_from(epoch_secs: u64) -> i64
    requires
        epoch_secs <= 253402300799,
{
    let reference = std::time::UNIX_EPOCH + std::time::Duration::from_secs(epoch_secs);
    let elapsed = std::time::SystemTime::now()
        .duration_since(reference)
        .expect("time went backwards!");
    elapsed.as_nanos() as i64
}

/// Nanoseconds since the subsystem's reference point,
/// 2022-01-01 00:00:00 UTC.
pub fn nano_time() -> i64 {
    clock_nanos_from(EPOCH_OFFSET_SECS)
}

impl SeedState {
    /// The current uniquifier word.
    pub closed spec fn uniquifier_spec(self) -> u64 {
        self.uniquifier
    }

    /// The seed most recently handed out, or zero before the first one.
    pub closed spec fn last_seed_spec(self) -> u64 {
        self.last_seed
    }

    /// A fresh subsystem state: the fixed initial uniquifier, and no
    /// seed handed out yet.
    pub fn new() -> (r: SeedState)
        ensures
            r.uniquifier_spec() == SEED_UNIQUIFIER_INIT,
            r.last_seed_spec() == 0,
    {
        SeedState { uniquifier: SEED_UNIQUIFIER_INIT, last_seed: 0 }
    }
}

/// Advances the uniquifier by one multiplicative step and returns the
/// advanced word.
pub fn next_seed_uniquifier(state: &mut SeedState) -> (r: i64)
    ensures
        final(state).uniquifier_spec() == old(state).uniquifier_spec().wrapping_mul(
            SEED_UNIQUIFIER_MUL,
        ),
        final(state).last_seed_spec() == old(state).last_seed_spec(),
        r as u64 == final(state).uniquifier_spec(),
{
    state.uniquifier = state.uniquifier.wrapping_mul(SEED_UNIQUIFIER_MUL);
    proof {
        crate::bit_mix::lemma_u64_to_i64_roundtrip(state.uniquifier);
    }
    #[verifier::truncate] (state.uniquifier as i64)
}

/// One seed candidate from the given clock reading `t`: advances the
/// uniquifier, XORs in `t` and mixes the word.
pub fn seed_candidate(state: &mut SeedState, t: i64) -> (r: i64)
    ensures
        final(state).uniquifier_spec() == old(state).uniquifier_spec().wrapping_mul(
            SEED_UNIQUIFIER_MUL,
        ),
        final(state).last_seed_spec() == old(state).last_seed_spec(),
        r as u64 == seed_candidate_spec(old(state).uniquifier_spec(), t as u64),
{
    let u = next_seed_uniquifier(state);
    let r = stafford_mix13(u ^ t);
    proof {
        crate::bit_mix::lemma_i64_xor_as_u64(u, t);
        crate::bit_mix::lemma_u64_to_i64_roundtrip(
            stafford_mix13_spec((u as u64) ^ (t as u64)),
        );
    }
    r
}

/// One seed candidate from the live clock.
pub fn pseudo_random_seed(state: &mut SeedState) -> (r: i64)
    ensures
        final(state).uniquifier_spec() == old(state).uniquifier_spec().wrapping_mul(
            SEED_UNIQUIFIER_MUL,
        ),
        final(state).last_seed_spec() == old(state).last_seed_spec(),
        exists|t: u64| r as u64 == seed_candidate_spec(old(state).uniquifier_spec(), t),
{
    let t = nano_time();
    let r = seed_candidate(state, t);
    proof {
        assert(r as u64 == seed_candidate_spec(old(state).uniquifier_spec(), t as u64));
    }
    r
}

/// Draws the next raw seed from `state`: never zero, and never equal to
/// the seed handed out immediately before it.
pub fn raw_seed_with(state: &mut SeedState) -> (r: i64)
    ensures
        r != 0,
        r as u64 != 0,
        r as u64 != old(state).last_seed_spec(),
        final(state).last_seed_spec() == r as u64,
{
    let ghost last0: u64 = state.last_seed;
    let mut fuel: u64 = MAX_SEED_ATTEMPTS;
    loop
        invariant
            state.last_seed == last0,
            last0 == old(state).last_seed_spec(),
        decreases fuel,
    {
        let cand = pseudo_random_seed(state);
        let cand_u = #[verifier::truncate] (cand as u64);
        if cand_u != 0 && cand_u != state.last_seed {
            state.last_seed = cand_u;
            return cand;
        }
        if fuel == 0 {
            // Deterministic escape, reachable only if every candidate in
            // the attempt budget was zero or repeated: step away from the
            // previous seed by a fixed odd offset.
            let mut s = state.last_seed.wrapping_add(SEED_UNIQUIFIER_MUL);
            if s == 0 {
                s = SEED_UNIQUIFIER_MUL;
            }
            state.last_seed = s;
            proof {
                crate::bit_mix::lemma_u64_to_i64_roundtrip(s);
            }
            return #[verifier::truncate] (s as i64);
        }
        fuel = fuel - 1;
    }
}

/// Draws a raw seed from a fresh subsystem state and the live clock;
/// the result is never zero. Callers that need sequential draws to
/// stay distinct keep one [`SeedState`] and call [`raw_seed_with`],
/// whose contract carries the distinctness.
pub fn raw_seed() -> (r: i64)
    ensures
        r != 0,
{
    let mut state = SeedState::new();
    raw_seed_with(&mut state)
}

} // verus!
