//! The user-facing generators and the uniform-generation trait.
//!
//! [`PseudoRandom`] asks an implementor for one operation — produce the
//! next uniform 64-bit signed integer — together with a mathematical
//! model of its state, and derives every other operation (narrower
//! integers, booleans, bounded and interval draws, buffer filling)
//! generically from that single primitive. Three generators implement
//! it: [`Stc64`] (the fastest), [`XoShiRo256StarStar`] and
//! [`Lcg64Xor1024Mix`] (the strongest equidistribution).
//!
//! None of these generators is cryptographically secure.

use vstd::prelude::*;

use crate::bit_mix::lemma_u64_to_i64_roundtrip;
use crate::bit_mix::rrxmrrxmsx_spec;
use crate::split_mix64_seed::seed_step_spec;
use crate::split_mix64_seed::SeedContext;
use crate::xor_shift_128plus::XorShift128Plus;

verus! {

/// A generator of uniform pseudorandom values.
///
/// Implementors supply [`next_long`](Self::next_long) together with a
/// spec-level model of their state: the model of the state after one
/// step and the output of that step. Every derived operation is pinned
/// to that model, so a generator's whole output sequence is determined
/// by the model of its initial state.
pub trait PseudoRandom: Sized {
    /// The mathematical model of the generator's state.
    type Model;

    /// The model of the current state.
    spec fn model(self) -> Self::Model;

    /// Well-formedness of a model state.
    spec fn m_wf(m: Self::Model) -> bool;

    /// The model state after one step.
    spec fn m_step(m: Self::Model) -> Self::Model;

    /// The output word of one step taken from model state `m`.
    spec fn m_out(m: Self::Model) -> i64;

    /// One step preserves well-formedness.
    proof fn lemma_step_wf(m: Self::Model)
        requires
            Self::m_wf(m),
        ensures
            Self::m_wf(Self::m_step(m)),
    ;

    /// Returns a uniformly distributed signed 64-bit integer: the output
    /// of one step of the generator's recurrence.
    fn next_long(&mut self) -> (r: i64)
        requires
            Self::m_wf(old(self).model()),
        ensures
            Self::m_wf(final(self).model()),
            final(self).model() == Self::m_step(old(self).model()),
            r == Self::m_out(old(self).model()),
    ;

    /// Returns a uniformly distributed signed 32-bit integer: the high
    /// 32 bits of the next 64-bit output.
    fn next_int(&mut self) -> (r: i32)
        requires
            Self::m_wf(old(self).model()),
        ensures
            Self::m_wf(final(self).model()),
            final(self).model() == Self::m_step(old(self).model()),
            r == high32_spec(Self::m_out(old(self).model())),
    {
        let l = self.next_long();
        let hi = (#[verifier::truncate] (l as u64)) >> 32;
        #[verifier::truncate] ((#[verifier::truncate] (hi as u32)) as i32)
    }

    /// Returns an equidistributed boolean: the sign bit of the next
    /// 64-bit output.
    fn next_bool(&mut self) -> (r: bool)
        requires
            Self::m_wf(old(self).model()),
        ensures
            Self::m_wf(final(self).model()),
            final(self).model() == Self::m_step(old(self).model()),
            r == (Self::m_out(old(self).model()) < 0),
    {
        self.next_long() < 0
    }

}

/// The derived uniform-generation operations, available for every
/// [`PseudoRandom`] generator through a blanket implementation. They
/// stand apart from the core trait because their contracts iterate the
/// generator's model.
pub trait PseudoRandomOps: PseudoRandom {
    /// Returns a uniformly distributed value in `[0, n)` for a strictly
    /// positive bound `n`: a single masked draw when `n` is a power of
    /// two, otherwise rejection sampling over 63-bit draws.
    #[verifier::loop_isolation(false)]
    fn next_long_up_to(&mut self, n: i64) -> (r: i64)
        requires
            Self::m_wf(old(self).model()),
            n > 0,
        ensures
            Self::m_wf(final(self).model()),
            0 <= r < n,
            final(self).model() == bounded_spec::<Self>(
                old(self).model(),
                n,
                MAX_REJECTED_DRAWS as nat,
            ).0,
            r == bounded_spec::<Self>(old(self).model(), n, MAX_REJECTED_DRAWS as nat).1,
            is_pow2(n) ==> r == (Self::m_out(old(self).model()) & ((n - 1) as i64)),
    {
        let n_minus1 = n - 1;
        let x = self.next_long();
        if (n & n_minus1) == 0 {
            // power of two shortcut
            proof {
                lemma_pow2_mask(x, n);
            }
            return x & n_minus1;
        }
        // rejection-based algorithm to get uniform longs
        let ghost m1 = self.model();
        let xu = #[verifier::truncate] (x as u64);
        proof {
            lemma_half_bounds(x);
        }
        let mut y: i64 = #[verifier::truncate] ((xu >> 1) as i64);
        let ghost y0 = y;
        let mut fuel: u64 = MAX_REJECTED_DRAWS;
        loop
            invariant
                Self::m_wf(self.model()),
                0 <= y,
                fuel <= MAX_REJECTED_DRAWS,
                rejection_spec::<Self>(y, self.model(), n, fuel as nat)
                    == rejection_spec::<Self>(y0, m1, n, MAX_REJECTED_DRAWS as nat),
            decreases fuel,
        {
            let q = y % n;
            let lhs = (y as u64) + (n_minus1 as u64);
            let rhs = 0x7fffffffffffffff + (q as u64);
            if lhs <= rhs {
                proof {
                    assert(accepts_spec(y, n));
                }
                return q;
            }
            if fuel == 0 {
                return q;
            }
            fuel = fuel - 1;
            let x2 = self.next_long();
            proof {
                lemma_half_bounds(x2);
            }
            y = #[verifier::truncate] (((#[verifier::truncate] (x2 as u64)) >> 1) as i64);
        }
    }

    /// Returns a uniformly distributed value in `[0, n)` for a strictly
    /// positive 32-bit bound `n`.
    fn next_int_up_to(&mut self, n: i32) -> (r: i32)
        requires
            Self::m_wf(old(self).model()),
            n > 0,
        ensures
            Self::m_wf(final(self).model()),
            0 <= r < n,
            final(self).model() == bounded_spec::<Self>(
                old(self).model(),
                n as i64,
                MAX_REJECTED_DRAWS as nat,
            ).0,
            r as i64 == bounded_spec::<Self>(
                old(self).model(),
                n as i64,
                MAX_REJECTED_DRAWS as nat,
            ).1,
    {
        let l = self.next_long_up_to(n as i64);
        #[verifier::truncate] (l as i32)
    }

    /// Returns a signed 64-bit integer uniformly distributed in the
    /// interval `[min, max]`. The width of the interval must fit in a
    /// signed 64-bit integer.
    fn next_long_from_interval(&mut self, min: i64, max: i64) -> (r: i64)
        requires
            Self::m_wf(old(self).model()),
            min <= max,
            max - min < i64::MAX,
        ensures
            Self::m_wf(final(self).model()),
            min <= r <= max,
            final(self).model() == bounded_spec::<Self>(
                old(self).model(),
                (max - min + 1) as i64,
                MAX_REJECTED_DRAWS as nat,
            ).0,
            r == min + bounded_spec::<Self>(
                old(self).model(),
                (max - min + 1) as i64,
                MAX_REJECTED_DRAWS as nat,
            ).1,
    {
        let n = (max - min) + 1;
        let v = self.next_long_up_to(n);
        min + v
    }

    /// Returns a signed 32-bit integer uniformly distributed in the
    /// interval `[min, max]`.
    fn next_int_from_interval(&mut self, min: i32, max: i32) -> (r: i32)
        requires
            Self::m_wf(old(self).model()),
            min <= max,
        ensures
            Self::m_wf(final(self).model()),
            min <= r <= max,
            final(self).model() == bounded_spec::<Self>(
                old(self).model(),
                (max - min + 1) as i64,
                MAX_REJECTED_DRAWS as nat,
            ).0,
            r as i64 == min + bounded_spec::<Self>(
                old(self).model(),
                (max - min + 1) as i64,
                MAX_REJECTED_DRAWS as nat,
            ).1,
    {
        let l = self.next_long_from_interval(min as i64, max as i64);
        #[verifier::truncate] (l as i32)
    }

    /// Fills `bytes` with random bytes: successive 64-bit outputs are
    /// decomposed into bytes, low byte first, until the buffer is full.
    #[verifier::loop_isolation(false)]
    fn next_bytes(&mut self, bytes: &mut Vec<u8>)
        requires
            Self::m_wf(old(self).model()),
        ensures
            Self::m_wf(final(self).model()),
            final(bytes)@.len() == old(bytes)@.len(),
            forall|i: int|
                0 <= i < final(bytes)@.len() ==> final(bytes)@[i] == model_byte_at::<Self>(
                    old(self).model(),
                    i,
                ),
            final(self).model() == model_after::<Self>(
                old(self).model(),
                ((old(bytes)@.len() + 7) / 8) as nat,
            ),
    {
        let ghost m0 = old(self).model();
        let len = bytes.len();
        let mut i: usize = 0;
        while i < len
            invariant
                i <= len,
                bytes@.len() == len,
                i % 8 == 0 || i == len,
                Self::m_wf(self.model()),
                self.model() == model_after::<Self>(m0, ((i + 7) / 8) as nat),
                forall|t: int| 0 <= t < i ==> bytes@[t] == model_byte_at::<Self>(m0, t),
            decreases len - i,
        {
            let x = self.next_long();
            let ghost w = x as u64;
            let mut rnd = #[verifier::truncate] (x as u64);
            let mut n: usize = len - i;
            if n > 8 {
                n = 8;
            }
            proof {
                lemma_shr_zero(w);
            }
            let mut k: usize = 0;
            while k < n
                invariant
                    k <= n,
                    n <= 8,
                    n >= 1,
                    i + n <= len,
                    i % 8 == 0,
                    i < len,
                    len - i > 8 ==> n == 8,
                    len - i <= 8 ==> n == len - i,
                    bytes@.len() == len,
                    rnd == w >> ((8 * k) as u64),
                    w == model_out_at::<Self>(m0, (i / 8) as nat) as u64,
                    self.model() == model_after::<Self>(m0, (i / 8 + 1) as nat),
                    forall|t: int| 0 <= t < i + k ==> bytes@[t] == model_byte_at::<Self>(m0, t),
                decreases n - k,
            {
                bytes[i + k] = #[verifier::truncate] (rnd as u8);
                proof {
                    assert((i + k) / 8 == i / 8);
                    assert((i + k) % 8 == k as int);
                    lemma_shr_step(w, k as u64);
                }
                rnd = rnd >> 8;
                k = k + 1;
            }
            i = i + n;
        }
    }

    /// Fills `longs` with uniformly distributed signed 64-bit integers:
    /// one output of the generator for each element, in order.
    #[verifier::loop_isolation(false)]
    fn next_longs(&mut self, longs: &mut Vec<i64>)
        requires
            Self::m_wf(old(self).model()),
        ensures
            Self::m_wf(final(self).model()),
            final(longs)@.len() == old(longs)@.len(),
            forall|j: int|
                0 <= j < final(longs)@.len() ==> final(longs)@[j] == model_out_at::<Self>(
                    old(self).model(),
                    j as nat,
                ),
            final(self).model() == model_after::<Self>(
                old(self).model(),
                old(longs)@.len() as nat,
            ),
    {
        let ghost m0 = old(self).model();
        let len = longs.len();
        let mut j: usize = 0;
        while j < len
            invariant
                j <= len,
                longs@.len() == len,
                Self::m_wf(self.model()),
                self.model() == model_after::<Self>(m0, j as nat),
                forall|t: int| 0 <= t < j ==> longs@[t] == model_out_at::<Self>(m0, t as nat),
            decreases len - j,
        {
            let v = self.next_long();
            longs[j] = v;
            j = j + 1;
        }
    }
}

impl<T: PseudoRandom> PseudoRandomOps for T {

}

/// The high 32 bits of output word `w`, as a signed 32-bit integer.
pub open spec fn high32_spec(w: i64) -> i32 {
    (((w as u64) >> 32) as u32) as i32
}

/// Whether `n` is a power of two (for strictly positive `n`).
pub open spec fn is_pow2(n: i64) -> bool {
    n & ((n - 1) as i64) == 0
}

/// The 63-bit draw taken from output word `w`: the word shifted right
/// by one bit as an unsigned value, so the result is non-negative.
pub open spec fn half_u63(w: i64) -> i64 {
    ((w as u64) >> 1) as i64
}

/// Whether the 63-bit draw `y` lies outside the biased tail for bound
/// `n`: `y + (n - 1) - (y % n)` stays within the signed 64-bit range.
/// Accepting exactly these draws makes the reduced value uniform.
pub open spec fn accepts_spec(y: i64, n: i64) -> bool {
    y + (n - 1) - (y % n) <= i64::MAX
}

/// Bound on the number of rejected draws before a bounded draw falls
/// back to the last reduced value. Each draw is rejected with
/// probability below one half, so the bound is never reached in
/// practice.
pub const MAX_REJECTED_DRAWS: u64 = 64;

/// The state and value of rejection sampling for bound `n`, starting
/// from the 63-bit draw `y` with the generator in model state `m`: the
/// first accepted draw is reduced modulo `n`; after `fuel` further
/// draws the last reduced value is taken regardless.
pub open spec fn rejection_spec<T: PseudoRandom>(y: i64, m: T::Model, n: i64, fuel: nat) -> (
    T::Model,
    i64,
)
    decreases fuel,
{
    if accepts_spec(y, n) || fuel == 0 {
        (m, y % n)
    } else {
        rejection_spec::<T>(half_u63(T::m_out(m)), T::m_step(m), n, (fuel - 1) as nat)
    }
}

/// The state and value of a bounded draw with bound `n` from model
/// state `m`: one draw, masked if `n` is a power of two, otherwise
/// rejection sampling over 63-bit draws.
pub open spec fn bounded_spec<T: PseudoRandom>(m: T::Model, n: i64, fuel: nat) -> (T::Model, i64) {
    let w = T::m_out(m);
    let m1 = T::m_step(m);
    if is_pow2(n) {
        (m1, w & ((n - 1) as i64))
    } else {
        rejection_spec::<T>(half_u63(w), m1, n, fuel)
    }
}

/// The byte at position `i` of the byte stream generated from model
/// state `m`: byte `i % 8` (low byte first) of output word `i / 8`.
pub open spec fn model_byte_at<T: PseudoRandom>(m: T::Model, i: int) -> u8 {
    ((model_out_at::<T>(m, (i / 8) as nat) as u64) >> ((8 * (i % 8)) as u64)) as u8
}

/// Shifting right by zero is the identity.
proof fn lemma_shr_zero(w: u64)
    by (bit_vector)
    ensures
        w >> 0u64 == w,
{
}

/// Shifting right by one more byte.
proof fn lemma_shr_step(w: u64, k: u64)
    by (bit_vector)
    requires
        k < 8,
    ensures
        (w >> ((8 * k) as u64)) >> 8 == w >> ((8 * (k + 1)) as u64),
{
}

/// Masking a word with `n - 1` for a positive power of two `n` yields a
/// value in `[0, n)`.
proof fn lemma_pow2_mask(x: i64, n: i64)
    by (bit_vector)
    requires
        n > 0,
        n & ((n - 1) as i64) == 0,
    ensures
        0 <= (x & ((n - 1) as i64)),
        (x & ((n - 1) as i64)) < n,
{
}

/// The 63-bit draw taken from any word is non-negative.
proof fn lemma_half_bounds(w: i64)
    by (bit_vector)
    ensures
        0 <= half_u63(w),
        (w as u64) >> 1 == half_u63(w) as u64,
{
}

/// Rejection sampling yields a value in `[0, n)`.
pub proof fn lemma_rejection_in_range<T: PseudoRandom>(y: i64, m: T::Model, n: i64, fuel: nat)
    requires
        n > 0,
        0 <= y,
    ensures
        0 <= rejection_spec::<T>(y, m, n, fuel).1 < n,
    decreases fuel,
{
    if !(accepts_spec(y, n) || fuel == 0) {
        lemma_half_bounds(T::m_out(m));
        lemma_rejection_in_range::<T>(
            half_u63(T::m_out(m)),
            T::m_step(m),
            n,
            (fuel - 1) as nat,
        );
    }
}

/// A bounded draw yields a value in `[0, n)`.
pub proof fn lemma_bounded_in_range<T: PseudoRandom>(m: T::Model, n: i64, fuel: nat)
    requires
        n > 0,
    ensures
        0 <= bounded_spec::<T>(m, n, fuel).1 < n,
{
    if is_pow2(n) {
        lemma_pow2_mask(T::m_out(m), n);
    } else {
        lemma_half_bounds(T::m_out(m));
        lemma_rejection_in_range::<T>(half_u63(T::m_out(m)), T::m_step(m), n, fuel);
    }
}

/// The model state after `k` steps from `m`.
pub open spec fn model_after<T: PseudoRandom>(m: T::Model, k: nat) -> T::Model
    decreases k,
{
    if k == 0 {
        m
    } else {
        T::m_step(model_after::<T>(m, (k - 1) as nat))
    }
}

/// The `j`-th output drawn from model state `m` (the first output drawn
/// has `j == 0`).
pub open spec fn model_out_at<T: PseudoRandom>(m: T::Model, j: nat) -> i64 {
    T::m_out(model_after::<T>(m, j))
}

/// Any number of steps preserves well-formedness.
pub proof fn lemma_model_after_wf<T: PseudoRandom>(m: T::Model, k: nat)
    requires
        T::m_wf(m),
    ensures
        T::m_wf(model_after::<T>(m, k)),
    decreases k,
{
    if k > 0 {
        lemma_model_after_wf::<T>(m, (k - 1) as nat);
        T::lemma_step_wf(model_after::<T>(m, (k - 1) as nat));
    }
}

/// Reproducibility: two generators whose initial states have the same
/// model produce bit-for-bit the same output at every position.
pub proof fn lemma_reproducible<T: PseudoRandom>(m1: T::Model, m2: T::Model, j: nat)
    requires
        m1 == m2,
    ensures
        model_out_at::<T>(m1, j) == model_out_at::<T>(m2, j),
{
}

/// Shifting in a low one bit makes a word odd.
proof fn lemma_shl1_or1_odd(x: u64)
    by (bit_vector)
    ensures
        ((x << 1) | 1) & 1 == 1,
{
}

/// Additive offset from the seed word to the second Stc64 state word.
pub const STC64_OFFSET_S1: u64 = 0x26aa069ea2fb1a4d;

/// Additive offset from the seed word to the third Stc64 state word.
pub const STC64_OFFSET_S2: u64 = 0x70c72c95cd592d04;

/// Additive offset from the seed word to the fourth Stc64 state word.
pub const STC64_OFFSET_S3: u64 = 0x504f333d3aa0b359;

/// Additive offset from the seed word to the Stc64 Weyl increment.
pub const STC64_OFFSET_SEQ: u64 = 0x3504f333d3aa0b37;

/// Warm-up steps run by Stc64 after seeding, discarding output.
pub const STC64_ESCAPE_STEPS: u64 = 12;

/// The 256-bit generator `Stc64`, Tyge Løvset's improved variation of
/// `Sfc64`: three chaotically updated words plus a Weyl sequence.
///
/// This generator has a guaranteed period of at least 2^64 and an
/// average period of about 2^255. It is the fastest generator supplied
/// in this crate.
#[derive(Debug, Clone)]
pub struct Stc64 {
    s0: u64,
    s1: u64,
    s2: u64,
    s3: u64,
    seq: u64,
}

impl Stc64 {
    /// The first chaotic state word.
    pub closed spec fn s0_spec(self) -> u64 {
        self.s0
    }

    /// The second chaotic state word.
    pub closed spec fn s1_spec(self) -> u64 {
        self.s1
    }

    /// The third chaotic state word.
    pub closed spec fn s2_spec(self) -> u64 {
        self.s2
    }

    /// The Weyl-sequence word.
    pub closed spec fn s3_spec(self) -> u64 {
        self.s3
    }

    /// The Weyl increment; always odd.
    pub closed spec fn seq_spec(self) -> u64 {
        self.seq
    }

    /// The output of the next step: the first word XORed with the
    /// advanced Weyl word, plus the second word.
    pub open spec fn out_word_spec(self) -> u64 {
        (self.s0_spec() ^ self.s3_spec().wrapping_add(self.seq_spec())).wrapping_add(
            self.s1_spec(),
        )
    }

    /// The state after one step.
    pub closed spec fn step_spec(self) -> Stc64 {
        Stc64 {
            s0: self.s1 ^ (self.s1 >> 11),
            s1: self.s2.wrapping_add(self.s2 << 3),
            s2: ((self.s2 << 24) | (self.s2 >> 40)).wrapping_add(self.out_word_spec()),
            s3: self.s3.wrapping_add(self.seq),
            seq: self.seq,
        }
    }

    /// The state words derived from one seed word, before warm-up: the
    /// chaotic words at fixed odd offsets from the seed, and the Weyl
    /// increment forced odd.
    pub closed spec fn seeded_spec(seed: u64) -> Stc64 {
        Stc64 {
            s0: seed,
            s1: seed.wrapping_add(STC64_OFFSET_S1),
            s2: seed.wrapping_add(STC64_OFFSET_S2),
            s3: seed.wrapping_add(STC64_OFFSET_S3),
            seq: (seed.wrapping_add(STC64_OFFSET_SEQ) << 1) | 1,
        }
    }

    /// The generator obtained deterministically from seed word `seed`:
    /// the seeded words after the warm-up steps.
    pub open spec fn from_seed_spec(seed: u64) -> Stc64 {
        model_after::<Stc64>(Stc64::seeded_spec(seed), STC64_ESCAPE_STEPS as nat)
    }

    /// Creates a new [Stc64] initialized with a random seed, drawn
    /// from a fresh entropy context.
    pub fn new() -> (r: Stc64)
        ensures
            r.seq_spec() & 1 == 1,
            exists|w: u64| r == Stc64::from_seed_spec(w),
    {
        let mut ctx = SeedContext::new();
        Stc64::new_with(&mut ctx)
    }

    /// Creates a new [Stc64] seeded from the entropy context `ctx`:
    /// the seed word is the first output of a context-derived
    /// XorShift128Plus, so sequential constructions on one context
    /// advance its seed stream.
    pub fn new_with(ctx: &mut SeedContext) -> (r: Stc64)
        ensures
            seed_step_spec(*old(ctx), *final(ctx)),
            r.seq_spec() & 1 == 1,
            r == Stc64::from_seed_spec(
                XorShift128Plus::from_state_spec(
                    rrxmrrxmsx_spec(final(ctx).word_spec()),
                ).next_out_spec(),
            ),
    {
        let mut xs = XorShift128Plus::new_with(ctx);
        let w = xs.next_long();
        Stc64::internal_new(w)
    }

    /// Creates a new [Stc64] initialized with the given `seed`: the
    /// seed word is the first output of a seed-derived XorShift128Plus.
    pub fn new_from(seed: i64) -> (r: Stc64)
        ensures
            r.seq_spec() & 1 == 1,
            r == Stc64::from_seed_spec(
                XorShift128Plus::from_seed_spec(seed as u64).next_out_spec(),
            ),
    {
        let mut xs = XorShift128Plus::new_from(seed);
        let w = xs.next_long();
        Stc64::internal_new(w)
    }

    /// Builds the state words from one seed word and runs the warm-up.
    fn internal_new(seed: i64) -> (r: Stc64)
        ensures
            r == Stc64::from_seed_spec(seed as u64),
            r.seq_spec() & 1 == 1,
    {
        let w = #[verifier::truncate] (seed as u64);
        let mut instance = Stc64 {
            s0: w,
            s1: w.wrapping_add(STC64_OFFSET_S1),
            s2: w.wrapping_add(STC64_OFFSET_S2),
            s3: w.wrapping_add(STC64_OFFSET_S3),
            // seq must be odd
            seq: (w.wrapping_add(STC64_OFFSET_SEQ) << 1) | 1,
        };
        proof {
            lemma_shl1_or1_odd(w.wrapping_add(STC64_OFFSET_SEQ));
            assert(instance == Stc64::seeded_spec(w));
            lemma_model_after_wf::<Stc64>(instance, STC64_ESCAPE_STEPS as nat);
        }
        instance.escape();
        instance
    }

    /// Runs the warm-up steps, discarding their outputs.
    fn escape(&mut self)
        requires
            old(self).seq_spec() & 1 == 1,
        ensures
            *final(self) == model_after::<Stc64>(*old(self), STC64_ESCAPE_STEPS as nat),
    {
        let ghost start = *self;
        let mut i: u64 = 0;
        while i < STC64_ESCAPE_STEPS
            invariant
                i <= STC64_ESCAPE_STEPS,
                start == *old(self),
                *self == model_after::<Stc64>(start, i as nat),
                self.seq_spec() & 1 == 1,
            decreases STC64_ESCAPE_STEPS - i,
        {
            let _ = self.next_long();
            i = i + 1;
        }
    }
}

impl PseudoRandom for Stc64 {
    type Model = Stc64;

    open spec fn model(self) -> Stc64 {
        self
    }

    open spec fn m_wf(m: Stc64) -> bool {
        m.seq_spec() & 1 == 1
    }

    open spec fn m_step(m: Stc64) -> Stc64 {
        m.step_spec()
    }

    open spec fn m_out(m: Stc64) -> i64 {
        m.out_word_spec() as i64
    }

    proof fn lemma_step_wf(m: Stc64) {
    }

    fn next_long(&mut self) -> (r: i64) {
        let xb = self.s1;
        let xc = self.s2;

        self.s3 = self.s3.wrapping_add(self.seq);
        let rnd = (self.s0 ^ self.s3).wrapping_add(xb);

        self.s0 = xb ^ (xb >> 11);
        self.s1 = xc.wrapping_add(xc << 3);
        self.s2 = ((xc << 24) | (xc >> 40)).wrapping_add(rnd);

        proof {
            lemma_u64_to_i64_roundtrip(rnd);
            assert(*self == old(self).step_spec());
        }
        #[verifier::truncate] (rnd as i64)
    }
}

/// Warm-up steps run by XoShiRo256StarStar after seeding.
pub const XOSHIRO_ESCAPE_STEPS: u64 = 20;

/// 256-bit `xoshiro256**` generator of David Blackman and Sebastiano
/// Vigna: the canonical xoshiro256 state update with a `**` output
/// scrambler.
///
/// This generator has a period of 2^256 - 1 and is 4-dimensionally
/// equidistributed. It is almost as fast as [Stc64].
#[derive(Debug, Clone)]
pub struct XoShiRo256StarStar {
    x0: u64,
    x1: u64,
    x2: u64,
    x3: u64,
}

impl XoShiRo256StarStar {
    /// The first state word.
    pub closed spec fn x0_spec(self) -> u64 {
        self.x0
    }

    /// The second state word.
    pub closed spec fn x1_spec(self) -> u64 {
        self.x1
    }

    /// The third state word.
    pub closed spec fn x2_spec(self) -> u64 {
        self.x2
    }

    /// The fourth state word.
    pub closed spec fn x3_spec(self) -> u64 {
        self.x3
    }

    /// The output of the next step: the second state word times five,
    /// rotated left by seven, times nine (multiplications written as
    /// shift-and-add).
    pub open spec fn out_word_spec(self) -> u64 {
        let x = self.x1_spec().wrapping_add(self.x1_spec() << 2);
        let rot = (x << 7) | (x >> 57);
        rot.wrapping_add(rot << 3)
    }

    /// The state after one step: the canonical xoshiro256 update.
    pub closed spec fn step_spec(self) -> XoShiRo256StarStar {
        let t = self.x1 << 17;
        let x2a = self.x2 ^ self.x0;
        let x3a = self.x3 ^ self.x1;
        XoShiRo256StarStar {
            x0: self.x0 ^ x3a,
            x1: self.x1 ^ x2a,
            x2: x2a ^ t,
            x3: (x3a << 45) | (x3a >> 19),
        }
    }

    /// The state words drawn sequentially from the XorShift128Plus
    /// stream of `xs`, before warm-up.
    pub closed spec fn seeded_spec(xs: XorShift128Plus) -> XoShiRo256StarStar {
        XoShiRo256StarStar {
            x0: xs.next_out_spec(),
            x1: xs.step_spec().next_out_spec(),
            x2: xs.step_spec().step_spec().next_out_spec(),
            x3: xs.step_spec().step_spec().step_spec().next_out_spec(),
        }
    }

    /// The generator obtained deterministically from seed word `seed`:
    /// four words drawn from a seed-derived XorShift128Plus, then the
    /// warm-up steps.
    pub open spec fn from_seed_spec(seed: u64) -> XoShiRo256StarStar {
        model_after::<XoShiRo256StarStar>(
            XoShiRo256StarStar::seeded_spec(XorShift128Plus::from_seed_spec(seed)),
            XOSHIRO_ESCAPE_STEPS as nat,
        )
    }

    /// Creates a new [XoShiRo256StarStar] initialized with a random
    /// seed, drawn from a fresh entropy context.
    pub fn new() -> (r: XoShiRo256StarStar)
        ensures
            exists|xs: XorShift128Plus|
                r == model_after::<XoShiRo256StarStar>(
                    XoShiRo256StarStar::seeded_spec(xs),
                    XOSHIRO_ESCAPE_STEPS as nat,
                ),
    {
        let mut ctx = SeedContext::new();
        XoShiRo256StarStar::new_with(&mut ctx)
    }

    /// Creates a new [XoShiRo256StarStar] seeded from the entropy
    /// context `ctx`, so sequential constructions on one context
    /// advance its seed stream.
    pub fn new_with(ctx: &mut SeedContext) -> (r: XoShiRo256StarStar)
        ensures
            seed_step_spec(*old(ctx), *final(ctx)),
            r == model_after::<XoShiRo256StarStar>(
                XoShiRo256StarStar::seeded_spec(
                    XorShift128Plus::from_state_spec(
                        rrxmrrxmsx_spec(final(ctx).word_spec()),
                    ),
                ),
                XOSHIRO_ESCAPE_STEPS as nat,
            ),
    {
        let mut xs = XorShift128Plus::new_with(ctx);
        XoShiRo256StarStar::internal_new(&mut xs)
    }

    /// Creates a new [XoShiRo256StarStar] initialized with the given
    /// `seed`.
    pub fn new_from(seed: i64) -> (r: XoShiRo256StarStar)
        ensures
            r == XoShiRo256StarStar::from_seed_spec(seed as u64),
    {
        let mut xs = XorShift128Plus::new_from(seed);
        XoShiRo256StarStar::internal_new(&mut xs)
    }

    /// Seeds the four state words from the next four outputs of
    /// `seeder`, then runs the warm-up.
    fn internal_new(seeder: &mut XorShift128Plus) -> (r: XoShiRo256StarStar)
        ensures
            r == model_after::<XoShiRo256StarStar>(
                XoShiRo256StarStar::seeded_spec(*old(seeder)),
                XOSHIRO_ESCAPE_STEPS as nat,
            ),
    {
        let a = seeder.next_long();
        let b = seeder.next_long();
        let c = seeder.next_long();
        let d = seeder.next_long();
        let mut instance = XoShiRo256StarStar {
            x0: #[verifier::truncate] (a as u64),
            x1: #[verifier::truncate] (b as u64),
            x2: #[verifier::truncate] (c as u64),
            x3: #[verifier::truncate] (d as u64),
        };
        proof {
            crate::bit_mix::lemma_i64_to_u64_roundtrip(a);
            crate::bit_mix::lemma_i64_to_u64_roundtrip(b);
            crate::bit_mix::lemma_i64_to_u64_roundtrip(c);
            crate::bit_mix::lemma_i64_to_u64_roundtrip(d);
            assert(instance == XoShiRo256StarStar::seeded_spec(*old(seeder)));
        }
        instance.escape();
        instance
    }

    /// Runs the warm-up steps, discarding their outputs.
    fn escape(&mut self)
        ensures
            *final(self) == model_after::<XoShiRo256StarStar>(
                *old(self),
                XOSHIRO_ESCAPE_STEPS as nat,
            ),
    {
        let ghost start = *self;
        let mut i: u64 = 0;
        while i < XOSHIRO_ESCAPE_STEPS
            invariant
                i <= XOSHIRO_ESCAPE_STEPS,
                start == *old(self),
                *self == model_after::<XoShiRo256StarStar>(start, i as nat),
            decreases XOSHIRO_ESCAPE_STEPS - i,
        {
            let _ = self.next_long();
            i = i + 1;
        }
    }
}

impl PseudoRandom for XoShiRo256StarStar {
    type Model = XoShiRo256StarStar;

    open spec fn model(self) -> XoShiRo256StarStar {
        self
    }

    open spec fn m_wf(m: XoShiRo256StarStar) -> bool {
        true
    }

    open spec fn m_step(m: XoShiRo256StarStar) -> XoShiRo256StarStar {
        m.step_spec()
    }

    open spec fn m_out(m: XoShiRo256StarStar) -> i64 {
        m.out_word_spec() as i64
    }

    proof fn lemma_step_wf(m: XoShiRo256StarStar) {
    }

    fn next_long(&mut self) -> (r: i64) {
        let s1 = self.x1;
        let t = s1 << 17;
        let x = s1.wrapping_add(s1 << 2);
        let mut rnd = (x << 7) | (x >> 57);
        rnd = rnd.wrapping_add(rnd << 3);

        self.x2 = self.x2 ^ self.x0;
        self.x3 = self.x3 ^ s1;
        self.x1 = self.x1 ^ self.x2;
        let s3 = self.x3;
        self.x0 = self.x0 ^ s3;

        self.x2 = self.x2 ^ t;
        self.x3 = (s3 << 45) | (s3 >> 19);

        proof {
            lemma_u64_to_i64_roundtrip(rnd);
            assert(*self == old(self).step_spec());
        }
        #[verifier::truncate] (rnd as i64)
    }
}

/// Multiplier of the LCG sub-generator of [Lcg64Xor1024Mix], chosen
/// from the spectral-test research of Sebastiano Vigna and Guy Steele.
pub const LCG64_MUL: u64 = 0xd1342543de82ef95;

/// The mathematical model of a [Lcg64Xor1024Mix] state: the LCG
/// additive constant and accumulator, the rotating position, and the
/// sixteen words of the xoroshiro1024 array.
#[verifier::ext_equal]
pub struct Lcg64Model {
    /// The per-instance additive constant of the LCG sub-generator;
    /// always odd, which gives the LCG its full 2^64 period.
    pub a: u64,
    /// The accumulator of the LCG sub-generator.
    pub s: u64,
    /// The rotating position into the word array.
    pub pos: int,
    /// The sixteen words of the xoroshiro1024 sub-generator.
    pub words: Seq<u64>,
}

impl Lcg64Model {
    /// Sixteen array words, the position inside the array, and an odd
    /// LCG additive constant.
    pub open spec fn wf(self) -> bool {
        self.words.len() == 16 && 0 <= self.pos < 16 && self.a & 1 == 1
    }

    /// The position after one step: advanced by one, modulo sixteen.
    pub open spec fn next_pos(self) -> int {
        if self.pos == 15 {
            0
        } else {
            self.pos + 1
        }
    }

    /// The output of the next step: the LCG accumulator plus the word
    /// at the advanced position, passed through the Lea mixer.
    pub open spec fn out_word(self) -> u64 {
        crate::bit_mix::lea_mix64_spec(self.s.wrapping_add(self.words[self.next_pos()]))
    }

    /// The model after one step: the LCG accumulator advances by
    /// multiply-and-add, and the two touched array words follow the
    /// xoroshiro1024 rotate/XOR recurrence.
    pub open spec fn step(self) -> Lcg64Model {
        let p = self.pos;
        let np = self.next_pos();
        let s0 = self.words[np];
        let s15 = self.words[p] ^ s0;
        Lcg64Model {
            a: self.a,
            s: LCG64_MUL.wrapping_mul(self.s).wrapping_add(self.a),
            pos: np,
            words: self.words.update(p, ((s0 << 25) | (s0 >> 39)) ^ s15 ^ (s15 << 27)).update(
                np,
                (s15 << 36) | (s15 >> 28),
            ),
        }
    }
}

/// A word with its low bit forced on is odd.
proof fn lemma_or1_odd(x: u64)
    by (bit_vector)
    ensures
        (x | 1) & 1 == 1,
{
}

/// Advancing a position below sixteen by one with a four-bit mask.
proof fn lemma_pos_advance(p: usize)
    by (bit_vector)
    requires
        p < 16,
    ensures
        (((p + 1) as usize) & 15) < 16,
        p == 15 ==> (((p + 1) as usize) & 15) == 0,
        p < 15 ==> (((p + 1) as usize) & 15) == p + 1,
{
}

/// The `L64X1024MixRandom` algorithm: a 64-bit LCG sub-generator
/// combined with a xoroshiro1024 sub-generator, with a Lea-mixed
/// output stage.
///
/// This generator has a 1088-bit state, a period of 2^64 * (2^1024 - 1),
/// and is 16-dimensionally equidistributed. It is the slowest generator
/// supplied in this crate.
#[derive(Debug, Clone)]
pub struct Lcg64Xor1024Mix {
    a: u64,
    s: u64,
    pos: usize,
    seed: Vec<u64>,
}

impl Lcg64Xor1024Mix {
    /// The model freshly seeded from the XorShift128Plus stream of
    /// `xs`: the additive constant (forced odd), the accumulator and
    /// the sixteen array words are the next eighteen outputs, and the
    /// position starts at the last array slot.
    pub open spec fn seeded_model(xs: XorShift128Plus) -> Lcg64Model {
        Lcg64Model {
            a: xs.out_at_spec(0) | 1,
            s: xs.out_at_spec(1),
            pos: 15,
            words: Seq::new(16, |i: int| xs.out_at_spec((i + 2) as nat)),
        }
    }

    /// Creates a new [Lcg64Xor1024Mix] initialized with a random seed,
    /// drawn from a fresh entropy context.
    pub fn new() -> (r: Lcg64Xor1024Mix)
        ensures
            r.model().wf(),
            exists|xs: XorShift128Plus| r.model() == Lcg64Xor1024Mix::seeded_model(xs),
    {
        let mut ctx = SeedContext::new();
        Lcg64Xor1024Mix::new_with(&mut ctx)
    }

    /// Creates a new [Lcg64Xor1024Mix] seeded from the entropy context
    /// `ctx`, so sequential constructions on one context advance its
    /// seed stream.
    pub fn new_with(ctx: &mut SeedContext) -> (r: Lcg64Xor1024Mix)
        ensures
            seed_step_spec(*old(ctx), *final(ctx)),
            r.model().wf(),
            r.model() == Lcg64Xor1024Mix::seeded_model(
                XorShift128Plus::from_state_spec(
                    rrxmrrxmsx_spec(final(ctx).word_spec()),
                ),
            ),
    {
        let mut xs = XorShift128Plus::new_with(ctx);
        Lcg64Xor1024Mix::internal_new(&mut xs)
    }

    /// Creates a new [Lcg64Xor1024Mix] initialized with the given
    /// `seed`.
    pub fn new_from(seed: i64) -> (r: Lcg64Xor1024Mix)
        ensures
            r.model().wf(),
            r.model() == Lcg64Xor1024Mix::seeded_model(
                XorShift128Plus::from_seed_spec(seed as u64),
            ),
    {
        let mut xs = XorShift128Plus::new_from(seed);
        Lcg64Xor1024Mix::internal_new(&mut xs)
    }

    /// Draws the additive constant, the accumulator and the sixteen
    /// array words sequentially from `seeder`. No warm-up is run: the
    /// 1024-bit array space makes a weak state astronomically unlikely
    /// from well-mixed input.
    fn internal_new(seeder: &mut XorShift128Plus) -> (r: Lcg64Xor1024Mix)
        ensures
            r.model().wf(),
            r.model() == Lcg64Xor1024Mix::seeded_model(*old(seeder)),
    {
        let ghost xs0 = *seeder;
        let a = seeder.next_long();
        let s = seeder.next_long();
        proof {
            assert(xs0.steps_spec(0) == xs0);
            assert(xs0.steps_spec(1) == xs0.steps_spec(0).step_spec());
            assert(xs0.steps_spec(2) == xs0.steps_spec(1).step_spec());
        }
        let mut words: Vec<u64> = Vec::new();
        let mut i: usize = 0;
        while i < 16
            invariant
                i <= 16,
                words@.len() == i,
                *seeder == xs0.steps_spec((i + 2) as nat),
                forall|j: int| 0 <= j < i ==> words@[j] == xs0.out_at_spec((j + 2) as nat),
            decreases 16 - i,
        {
            let w = seeder.next_long();
            proof {
                crate::bit_mix::lemma_i64_to_u64_roundtrip(w);
            }
            words.push(#[verifier::truncate] (w as u64));
            i = i + 1;
        }
        let instance = Lcg64Xor1024Mix {
            // a must be odd
            a: (#[verifier::truncate] (a as u64)) | 1,
            s: #[verifier::truncate] (s as u64),
            pos: 15,
            seed: words,
        };
        proof {
            crate::bit_mix::lemma_i64_to_u64_roundtrip(a);
            crate::bit_mix::lemma_i64_to_u64_roundtrip(s);
            lemma_or1_odd(a as u64);
            assert(instance.model() =~= Lcg64Xor1024Mix::seeded_model(xs0));
        }
        instance
    }
}

impl PseudoRandom for Lcg64Xor1024Mix {
    type Model = Lcg64Model;

    closed spec fn model(self) -> Lcg64Model {
        Lcg64Model { a: self.a, s: self.s, pos: self.pos as int, words: self.seed@ }
    }

    open spec fn m_wf(m: Lcg64Model) -> bool {
        m.wf()
    }

    open spec fn m_step(m: Lcg64Model) -> Lcg64Model {
        m.step()
    }

    open spec fn m_out(m: Lcg64Model) -> i64 {
        m.out_word() as i64
    }

    proof fn lemma_step_wf(m: Lcg64Model) {
    }

    fn next_long(&mut self) -> (r: i64) {
        // xoroshiro1024: part 1
        let p = self.pos;
        let mut s15 = self.seed[p];
        proof {
            lemma_pos_advance(p);
        }
        self.pos = (p + 1) & 15;
        let s0 = self.seed[self.pos];
        // compute result
        let w = self.s.wrapping_add(s0);
        proof {
            lemma_u64_to_i64_roundtrip(w);
            lemma_u64_to_i64_roundtrip(crate::bit_mix::lea_mix64_spec(w));
        }
        let rnd = crate::bit_mix::lea_mix64(#[verifier::truncate] (w as i64));
        // update LCG sub-generator
        self.s = LCG64_MUL.wrapping_mul(self.s).wrapping_add(self.a);
        // xoroshiro1024: part 2
        s15 = s15 ^ s0;
        self.seed[p] = ((s0 << 25) | (s0 >> 39)) ^ s15 ^ (s15 << 27);
        let w2 = (s15 << 36) | (s15 >> 28);
        let np = self.pos;
        self.seed[np] = w2;
        proof {
            assert(self.model() =~= old(self).model().step());
        }
        rnd
    }
}

impl Default for Stc64 {
    /// Equivalent to [`Stc64::new`]: a fresh entropy-seeded generator.
    fn default() -> (r: Stc64)
        ensures
            r.seq_spec() & 1 == 1,
            exists|w: u64| r == Stc64::from_seed_spec(w),
    {
        Stc64::new()
    }
}

impl Default for XoShiRo256StarStar {
    /// Equivalent to [`XoShiRo256StarStar::new`]: a fresh
    /// entropy-seeded generator.
    fn default() -> (r: XoShiRo256StarStar)
        ensures
            exists|xs: XorShift128Plus|
                r == model_after::<XoShiRo256StarStar>(
                    XoShiRo256StarStar::seeded_spec(xs),
                    XOSHIRO_ESCAPE_STEPS as nat,
                ),
    {
        XoShiRo256StarStar::new()
    }
}

impl Default for Lcg64Xor1024Mix {
    /// Equivalent to [`Lcg64Xor1024Mix::new`]: a fresh entropy-seeded
    /// generator.
    fn default() -> (r: Lcg64Xor1024Mix)
        ensures
            r.model().wf(),
            exists|xs: XorShift128Plus| r.model() == Lcg64Xor1024Mix::seeded_model(xs),
    {
        Lcg64Xor1024Mix::new()
    }
}

} // verus!
