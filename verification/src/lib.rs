//! A small library of easy-to-use non-cryptographic pseudo-random number
//! generators, together with a seed-acquisition facility that derives
//! non-zero, non-repeating 64-bit seeds from a monotonic clock and a
//! multiplicative uniquifier sequence.
//!
//! None of the generators in this crate is cryptographically secure: they
//! are intended for numeric simulations, not for secret-dependent
//! computations.

pub mod bit_mix;
pub mod pseudo_random;
pub mod seed;
pub mod split_mix64;
pub mod split_mix64_seed;
pub mod xor_shift_128plus;
