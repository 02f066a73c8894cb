//! Distances along a ray as order keys.
//!
//! An IEEE-754 double is a sign bit over a 63-bit magnitude, and for every
//! value that is not NaN the magnitudes order the non-negative values as the
//! numbers themselves. So the key `magnitude` for a clear sign bit and
//! `-magnitude` for a set one orders all non-NaN doubles as the reals they
//! stand for, with both zeros at key 0 and the infinities at `±INFINITY_KEY`.
//! A NaN lands outside `[-INFINITY_KEY, INFINITY_KEY]`, so no interval between
//! the infinities contains it.
use vstd::prelude::*;

verus! {

/// The sign bit of a double's bit pattern.
pub const SIGN_BIT: u64 = 0x8000_0000_0000_0000;

/// The key of positive infinity; negative infinity has its negation.
pub const INFINITY_KEY: i64 = 0x7FF0_0000_0000_0000;

/// The key of the double with bit pattern `bits`.
pub open spec fn key_of(bits: u64) -> int {
    if bits >= SIGN_BIT {
        -((bits - SIGN_BIT) as int)
    } else {
        bits as int
    }
}

/// The order key of the double whose bit pattern is `bits`.
pub fn distance_key(bits: u64) -> (k: i64)
    ensures
        k == key_of(bits),
{
    if bits >= SIGN_BIT {
        -((bits - SIGN_BIT) as i64)
    } else {
        bits as i64
    }
}

/// A bit pattern whose key is `k`; for key 0 it is that of positive zero.
pub fn distance_bits(k: i64) -> (bits: u64)
    requires
        k > i64::MIN,
    ensures
        key_of(bits) == k,
        k >= 0 ==> bits < SIGN_BIT,
{
    if k < 0 {
        SIGN_BIT + ((-k) as u64)
    } else {
        k as u64
    }
}

} // verus!
