//! Julian Day arithmetic over exact integer ticks.
//!
//! A tick is 1/2880 of a day (thirty seconds), so half days and whole
//! minutes are exact. The conversion is the standard civil-calendar
//! algorithm with the Gregorian century correction, months January and
//! February counting as months 13 and 14 of the prior year.

use vstd::prelude::*;

verus! {

/// Ticks in one day: the Julian Day number scaled by this is exact here.
pub const TICKS_PER_DAY: i64 = 2880;

/// The Julian Day of a civil date and time, in ticks of 1/2880 day.
///
/// `hour` and `minute` are universal time; out-of-range hours (as arise
/// when a timezone offset is subtracted without carrying into the day)
/// simply shift the fractional day, as the plain arithmetic absorbs them.
pub open spec fn spec_julian_day_ticks(
    year: int,
    month: int,
    day: int,
    hour: int,
    minute: int,
) -> int {
    let y = if month <= 2 {
        year - 1
    } else {
        year
    };
    let m = if month <= 2 {
        month + 12
    } else {
        month
    };
    let a = y / 100;
    let b = 2 - a + a / 4;
    (1461 * (y + 4716)) / 4 * 2880 + (306001 * (m + 1)) / 10000 * 2880 + day * 2880 + hour * 120
        + minute * 2 + b * 2880 - 4390560
}

/// Division rounding toward minus infinity, as the calendar formula needs.
fn floor_div(a: i64, b: i64) -> (q: i64)
    requires
        0 < b <= 0x1000_0000,
        -0x4000_0000_0000_0000 <= a <= 0x4000_0000_0000_0000,
    ensures
        q == a as int / b as int,
{
    if a >= 0 {
        a / b
    } else {
        let na = -a;
        let q2 = (na + (b - 1)) / b;
        proof {
            let bi = b as int;
            let nai = na as int;
            vstd::arithmetic::div_mod::lemma_fundamental_div_mod(nai, bi);
            let qq = nai / bi;
            let rr = nai % bi;
            assert(qq * bi == bi * qq) by (nonlinear_arith);
            if rr == 0 {
                assert(nai + bi - 1 == qq * bi + (bi - 1));
                vstd::arithmetic::div_mod::lemma_fundamental_div_mod_converse(
                    nai + bi - 1,
                    bi,
                    qq,
                    bi - 1,
                );
                assert((-qq) * bi == -(qq * bi)) by (nonlinear_arith);
                vstd::arithmetic::div_mod::lemma_fundamental_div_mod_converse(
                    a as int,
                    bi,
                    -qq,
                    0,
                );
            } else {
                assert((qq + 1) * bi == qq * bi + bi) by (nonlinear_arith);
                assert(nai + bi - 1 == (qq + 1) * bi + (rr - 1));
                vstd::arithmetic::div_mod::lemma_fundamental_div_mod_converse(
                    nai + bi - 1,
                    bi,
                    qq + 1,
                    rr - 1,
                );
                assert((-(qq + 1)) * bi == -(qq * bi) - bi) by (nonlinear_arith);
                assert(a as int == (-(qq + 1)) * bi + (bi - rr));
                vstd::arithmetic::div_mod::lemma_fundamental_div_mod_converse(
                    a as int,
                    bi,
                    -(qq + 1),
                    bi - rr,
                );
            }
        }
        -q2
    }
}

/// Convert a calendar date and universal time to a Julian Day, in ticks
/// of 1/2880 day (so the familiar day count is the result divided by
/// `TICKS_PER_DAY`, with half days exact).
pub fn to_julian_day(year: i32, month: u32, day: u32, hour: i32, minute: i32) -> (jd: i64)
    requires
        1 <= month <= 12,
    ensures
        jd == spec_julian_day_ticks(year as int, month as int, day as int, hour as int, minute as int),
{
    let y: i64 = if month <= 2 {
        year as i64 - 1
    } else {
        year as i64
    };
    let m: i64 = if month <= 2 {
        month as i64 + 12
    } else {
        month as i64
    };
    let a = floor_div(y, 100);
    let b: i64 = 2 - a + floor_div(a, 4);
    let days_for_years = floor_div(1461 * (y + 4716), 4);
    let days_for_months = floor_div(306001 * (m + 1), 10000);
    days_for_years * 2880 + days_for_months * 2880 + day as i64 * 2880 + hour as i64 * 120
        + minute as i64 * 2 + b * 2880 - 4390560
}

} // verus!
