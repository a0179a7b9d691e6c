//! Angle arithmetic in hundredths of a degree (centi-degrees).
//!
//! The whole library measures ecliptic longitudes in exact integer
//! centi-degrees, so a full circle is `DEGREES_360` units.

use vstd::prelude::*;

verus! {

/// A full circle, in centi-degrees.
pub const DEGREES_360: u32 = 36000;

/// Reduce an angle in centi-degrees to the range `[0, 360°)`.
///
/// This is the integer counterpart of `((x mod 360) + 360) mod 360`,
/// correct for negative inputs.
pub fn normalize_centi_degrees(x: i64) -> (r: u32)
    ensures
        r < DEGREES_360,
        r == x as int % (DEGREES_360 as int),
{
    let m: i64 = x % 36000;
    let n: i64 = if m < 0 {
        m + 36000
    } else {
        m
    };
    n as u32
}

/// Normalization is periodic: shifting an angle by any whole number of
/// circles leaves its normalized value unchanged.
pub proof fn lemma_normalize_periodic(x: int, k: int)
    ensures
        (x + 36000 * k) % 36000 == x % 36000,
{
    vstd::arithmetic::div_mod::lemma_mod_multiples_vanish(k, x, 36000);
}

} // verus!
