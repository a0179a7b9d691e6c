//! The tropical zodiac: sign order, longitude-to-sign conversion, and the
//! traditional calendar-date sun signs.

use vstd::prelude::*;

use crate::angles::normalize_centi_degrees;
use crate::types::SignPosition;

verus! {

/// The name of sign `i` in tropical order, Aries first.
pub open spec fn spec_sign_name(i: int) -> Seq<char> {
    if i == 0 {
        "aries"@
    } else if i == 1 {
        "taurus"@
    } else if i == 2 {
        "gemini"@
    } else if i == 3 {
        "cancer"@
    } else if i == 4 {
        "leo"@
    } else if i == 5 {
        "virgo"@
    } else if i == 6 {
        "libra"@
    } else if i == 7 {
        "scorpio"@
    } else if i == 8 {
        "sagittarius"@
    } else if i == 9 {
        "capricorn"@
    } else if i == 10 {
        "aquarius"@
    } else {
        "pisces"@
    }
}

/// The name of sign `i` in tropical order.
pub fn sign_name(i: u32) -> (r: &'static str)
    requires
        i < 12,
    ensures
        r@ == spec_sign_name(i as int),
{
    match i {
        0 => "aries",
        1 => "taurus",
        2 => "gemini",
        3 => "cancer",
        4 => "leo",
        5 => "virgo",
        6 => "libra",
        7 => "scorpio",
        8 => "sagittarius",
        9 => "capricorn",
        10 => "aquarius",
        _ => "pisces",
    }
}

/// A sign position carries a normalized longitude, its degrees within the
/// sign are that longitude reduced modulo one sign, and its name is the
/// sign the longitude falls in.
pub open spec fn sign_position_wf(p: crate::types::SignPositionV) -> bool {
    &&& 0 <= p.total_degrees < 36000
    &&& p.degrees == p.total_degrees % 3000
    &&& p.sign == spec_sign_name(p.total_degrees / 3000)
}

/// Convert an ecliptic longitude in centi-degrees (any value, wrapped into
/// one circle) to its zodiac sign and position within the sign.
pub fn degrees_to_sign(total_centi_degrees: i64) -> (r: SignPosition)
    ensures
        r.total_degrees as int == total_centi_degrees as int % 36000,
        sign_position_wf(r.deep_view()),
{
    let total = normalize_centi_degrees(total_centi_degrees);
    let sign_index = total / 3000;
    let within_sign = total % 3000;
    SignPosition {
        sign: String::from_str(sign_name(sign_index)),
        degrees: within_sign,
        total_degrees: total,
    }
}

/// The traditional sun sign for a calendar date: the sign whose season
/// the date falls in, by the fixed boundary table (Capricorn spans the
/// turn of the year).
pub open spec fn spec_sun_sign(month: int, day: int) -> Seq<char> {
    if month > 12 || (month == 12 && day >= 22) {
        "capricorn"@
    } else if month > 11 || (month == 11 && day >= 22) {
        "sagittarius"@
    } else if month > 10 || (month == 10 && day >= 23) {
        "scorpio"@
    } else if month > 9 || (month == 9 && day >= 23) {
        "libra"@
    } else if month > 8 || (month == 8 && day >= 23) {
        "virgo"@
    } else if month > 7 || (month == 7 && day >= 23) {
        "leo"@
    } else if month > 6 || (month == 6 && day >= 21) {
        "cancer"@
    } else if month > 5 || (month == 5 && day >= 21) {
        "gemini"@
    } else if month > 4 || (month == 4 && day >= 20) {
        "taurus"@
    } else if month > 3 || (month == 3 && day >= 21) {
        "aries"@
    } else if month > 2 || (month == 2 && day >= 19) {
        "pisces"@
    } else if month > 1 || (month == 1 && day >= 20) {
        "aquarius"@
    } else {
        "capricorn"@
    }
}

/// The sun sign for a month and day by the traditional date boundaries;
/// no astronomy is involved.
pub fn calculate_sun_sign(month: u32, day: u32) -> (r: String)
    ensures
        r@ == spec_sun_sign(month as int, day as int),
{
    let name: &str = if month > 12 || (month == 12 && day >= 22) {
        "capricorn"
    } else if month > 11 || (month == 11 && day >= 22) {
        "sagittarius"
    } else if month > 10 || (month == 10 && day >= 23) {
        "scorpio"
    } else if month > 9 || (month == 9 && day >= 23) {
        "libra"
    } else if month > 8 || (month == 8 && day >= 23) {
        "virgo"
    } else if month > 7 || (month == 7 && day >= 23) {
        "leo"
    } else if month > 6 || (month == 6 && day >= 21) {
        "cancer"
    } else if month > 5 || (month == 5 && day >= 21) {
        "gemini"
    } else if month > 4 || (month == 4 && day >= 20) {
        "taurus"
    } else if month > 3 || (month == 3 && day >= 21) {
        "aries"
    } else if month > 2 || (month == 2 && day >= 19) {
        "pisces"
    } else if month > 1 || (month == 1 && day >= 20) {
        "aquarius"
    } else {
        "capricorn"
    };
    String::from_str(name)
}

} // verus!
