//! Bit-mixing (avalanche) primitives.
//!
//! Five independent pure functions that map a 64-bit integer to a
//! well-mixed 64-bit (or, for one variant, 32-bit) integer using only
//! XOR, rotations, shifts and fixed odd multiplicative constants.
//! Downstream generators depend on the exact numeric output of these
//! finalizers, so each executable function is pinned bit-for-bit to its
//! specification.

use vstd::prelude::*;

verus! {

/// David Stafford's "Mix13" variant of the MurmurHash3 finalizer.
pub open spec fn stafford_mix13_spec(v: u64) -> u64 {
    let a = (v ^ (v >> 30)).wrapping_mul(0xbf58476d1ce4e5b9);
    let b = (a ^ (a >> 27)).wrapping_mul(0x94d049bb133111eb);
    b ^ (b >> 31)
}

/// David Stafford's "Mix04" variant, narrowed to the high 32 bits.
pub open spec fn stafford_mix04_spec(v: u64) -> u32 {
    let a = (v ^ (v >> 33)).wrapping_mul(0x62a9d9ed799705f5);
    let b = (a ^ (a >> 28)).wrapping_mul(0xcb24d0a5c88c35b3);
    (b >> 32) as u32
}

/// Pelle Evensen's "rrxmrrxmsx_0" mixer built from xor-rotations.
pub open spec fn rrxmrrxmsx_spec(v: u64) -> u64 {
    let a = v ^ (((v >> 25) | (v << 39)) ^ ((v >> 50) | (v << 14)));
    let b = a.wrapping_mul(0xa24baed4963ee407);
    let c = b ^ (((b >> 24) | (b << 40)) ^ ((b >> 49) | (b << 15)));
    let d = c.wrapping_mul(0x9fb21c651e98df25);
    d ^ (d >> 28)
}

/// Pelle Evensen's "xNASAM" mixer with a fixed pre-whitening constant.
pub open spec fn xnasam_spec(v: u64) -> u64 {
    let a = v ^ 0x6a09e667f3bcc909;
    let b = a ^ (((a >> 25) | (a << 39)) ^ ((a >> 47) | (a << 17)));
    let c = b.wrapping_mul(0x9e6c63d0676a9a99);
    let d = c ^ ((c >> 23) ^ (c >> 51));
    let e = d.wrapping_mul(0x9e6d62d06f6a9a9b);
    e ^ ((e >> 23) ^ (e >> 51))
}

/// Doug Lea's 64-bit mixer: two identical multiply-xorshift rounds.
pub open spec fn lea_mix64_spec(v: u64) -> u64 {
    let a = (v ^ (v >> 32)).wrapping_mul(0xdaba0b6eb09322e3);
    let b = (a ^ (a >> 32)).wrapping_mul(0xdaba0b6eb09322e3);
    b ^ (b >> 32)
}

/// Casting a 64-bit word to signed and back preserves the bits.
pub proof fn lemma_u64_to_i64_roundtrip(x: u64)
    by (bit_vector)
    ensures
        (x as i64) as u64 == x,
{
}

/// Casting a signed 64-bit word to unsigned and back preserves the bits.
pub proof fn lemma_i64_to_u64_roundtrip(x: i64)
    by (bit_vector)
    ensures
        (x as u64) as i64 == x,
{
}

/// XOR of signed 64-bit words is the XOR of their unsigned
/// reinterpretations.
pub proof fn lemma_i64_xor_as_u64(a: i64, b: i64)
    by (bit_vector)
    ensures
        (a ^ b) as u64 == (a as u64) ^ (b as u64),
{
}

/// Mixes the bits of `v` so that a one-bit input change flips about half
/// of the output bits; returns exactly `stafford_mix13_spec` of the input.
pub fn stafford_mix13(v: i64) -> (r: i64)
    ensures
        r == stafford_mix13_spec(v as u64) as i64,
{
    let v = #[verifier::truncate] (v as u64);
    let a = (v ^ (v >> 30)).wrapping_mul(0xbf58476d1ce4e5b9);
    let b = (a ^ (a >> 27)).wrapping_mul(0x94d049bb133111eb);
    #[verifier::truncate] ((b ^ (b >> 31)) as i64)
}

/// Mixes the bits of `v` into a well-avalanched 32-bit value; returns
/// exactly `stafford_mix04_spec` of the input.
pub fn stafford_mix04(v: i64) -> (r: i32)
    ensures
        r == stafford_mix04_spec(v as u64) as i32,
{
    let v = #[verifier::truncate] (v as u64);
    let a = (v ^ (v >> 33)).wrapping_mul(0x62a9d9ed799705f5);
    let b = (a ^ (a >> 28)).wrapping_mul(0xcb24d0a5c88c35b3);
    #[verifier::truncate] (((b >> 32) as u32) as i32)
}

/// Mixes the bits of `v`; returns exactly `rrxmrrxmsx_spec` of the input.
pub fn rrxmrrxmsx(v: i64) -> (r: i64)
    ensures
        r == rrxmrrxmsx_spec(v as u64) as i64,
{
    let v = #[verifier::truncate] (v as u64);
    let a = v ^ (((v >> 25) | (v << 39)) ^ ((v >> 50) | (v << 14)));
    let b = a.wrapping_mul(0xa24baed4963ee407);
    let c = b ^ (((b >> 24) | (b << 40)) ^ ((b >> 49) | (b << 15)));
    let d = c.wrapping_mul(0x9fb21c651e98df25);
    #[verifier::truncate] ((d ^ (d >> 28)) as i64)
}

/// Mixes the bits of `v`; returns exactly `xnasam_spec` of the input.
pub fn xnasam(v: i64) -> (r: i64)
    ensures
        r == xnasam_spec(v as u64) as i64,
{
    let v = #[verifier::truncate] (v as u64);
    let a = v ^ 0x6a09e667f3bcc909;
    let b = a ^ (((a >> 25) | (a << 39)) ^ ((a >> 47) | (a << 17)));
    let c = b.wrapping_mul(0x9e6c63d0676a9a99);
    let d = c ^ ((c >> 23) ^ (c >> 51));
    let e = d.wrapping_mul(0x9e6d62d06f6a9a9b);
    #[verifier::truncate] ((e ^ ((e >> 23) ^ (e >> 51))) as i64)
}

/// Mixes the bits of `v`; returns exactly `lea_mix64_spec` of the input.
pub fn lea_mix64(v: i64) -> (r: i64)
    ensures
        r == lea_mix64_spec(v as u64) as i64,
{
    let v = #[verifier::truncate] (v as u64);
    let a = (v ^ (v >> 32)).wrapping_mul(0xdaba0b6eb09322e3);
    let b = (a ^ (a >> 32)).wrapping_mul(0xdaba0b6eb09322e3);
    #[verifier::truncate] ((b ^ (b >> 32)) as i64)
}

} // verus!
