//! Chart assembly: validating birth data, converting local time to a
//! universal-time Julian Day, the retrograde test, and building a complete
//! natal chart from the ten body longitudes and the two chart angles.
//!
//! The trigonometric ephemeris (Kepler's equation, the Sun, Moon and
//! planetary series, sidereal time, Ascendant and Midheaven) runs on
//! floating point outside this crate; everything from its rounded
//! centi-degree longitudes onward is verified here.

use vstd::prelude::*;

use crate::aspects::{calculate_aspects, collected_aspects, sorted_by_orb};
use crate::houses::{equal_house_cusps, house_for_longitude, spec_cusp, spec_house_scan};
use crate::julian::{spec_julian_day_ticks, to_julian_day};
use crate::types::{
    AstroError, BirthData, NatalChart, PlanetPosition, PlanetPositionV, SignPosition,
};
use crate::zodiac::{degrees_to_sign, sign_position_wf, spec_sign_name};

verus! {

/// The computed inputs of a chart: the ten body longitudes and the two
/// chart angles, each a normalized ecliptic longitude in centi-degrees
/// (hundredths of a degree, as the chart reports them), and the motion
/// flags of the eight planets. The luminaries are never retrograde.
#[derive(Debug, Clone, Copy)]
pub struct ChartAngles {
    pub sun: u32,
    pub moon: u32,
    pub mercury: u32,
    pub venus: u32,
    pub mars: u32,
    pub jupiter: u32,
    pub saturn: u32,
    pub uranus: u32,
    pub neptune: u32,
    pub pluto: u32,
    pub ascendant: u32,
    pub midheaven: u32,
    pub mercury_retrograde: bool,
    pub venus_retrograde: bool,
    pub mars_retrograde: bool,
    pub jupiter_retrograde: bool,
    pub saturn_retrograde: bool,
    pub uranus_retrograde: bool,
    pub neptune_retrograde: bool,
    pub pluto_retrograde: bool,
}

impl ChartAngles {
    /// Every longitude lies on one circle.
    pub open spec fn wf(&self) -> bool {
        &&& self.sun < 36000
        &&& self.moon < 36000
        &&& self.mercury < 36000
        &&& self.venus < 36000
        &&& self.mars < 36000
        &&& self.jupiter < 36000
        &&& self.saturn < 36000
        &&& self.uranus < 36000
        &&& self.neptune < 36000
        &&& self.pluto < 36000
        &&& self.ascendant < 36000
        &&& self.midheaven < 36000
    }
}

/// A fully specified birth moment: every optional field of `BirthData`
/// present. Latitude and longitude are micro-degrees, the timezone is
/// centi-hours, as in `BirthData`.
#[derive(Debug, Clone, Copy)]
pub struct ChartMoment {
    pub year: i32,
    pub month: u32,
    pub day: u32,
    pub hour: i32,
    pub minute: i32,
    pub latitude: i64,
    pub longitude: i64,
    pub timezone: i32,
}

/// Whether every optional field a chart needs is present.
pub open spec fn birth_data_complete(b: BirthData) -> bool {
    &&& b.day is Some
    &&& b.hour is Some
    &&& b.minute is Some
    &&& b.latitude is Some
    &&& b.longitude is Some
    &&& b.timezone is Some
}

/// Check that every field a chart needs is present, and collect them.
/// Fails with `MissingField` exactly when one is absent; no astronomy
/// runs in that case.
pub fn validate_birth_data(birth_data: &BirthData) -> (r: Result<ChartMoment, AstroError>)
    ensures
        r is Ok <==> birth_data_complete(*birth_data),
        r matches Ok(m) ==> {
            &&& m.year == birth_data.year
            &&& m.month == birth_data.month
            &&& birth_data.day == Some(m.day)
            &&& birth_data.hour == Some(m.hour)
            &&& birth_data.minute == Some(m.minute)
            &&& birth_data.latitude == Some(m.latitude)
            &&& birth_data.longitude == Some(m.longitude)
            &&& birth_data.timezone == Some(m.timezone)
        },
        r matches Err(e) ==> e == AstroError::MissingField,
{
    let day = match birth_data.day {
        Some(d) => d,
        None => {
            return Err(AstroError::MissingField);
        },
    };
    let hour = match birth_data.hour {
        Some(h) => h,
        None => {
            return Err(AstroError::MissingField);
        },
    };
    let minute = match birth_data.minute {
        Some(m) => m,
        None => {
            return Err(AstroError::MissingField);
        },
    };
    let latitude = match birth_data.latitude {
        Some(l) => l,
        None => {
            return Err(AstroError::MissingField);
        },
    };
    let longitude = match birth_data.longitude {
        Some(l) => l,
        None => {
            return Err(AstroError::MissingField);
        },
    };
    let timezone = match birth_data.timezone {
        Some(t) => t,
        None => {
            return Err(AstroError::MissingField);
        },
    };
    Ok(
        ChartMoment {
            year: birth_data.year,
            month: birth_data.month,
            day,
            hour,
            minute,
            latitude,
            longitude,
            timezone,
        },
    )
}

/// The timezone offset in whole hours, fractions dropped toward zero (a
/// half-hour zone loses its half hour, as the hour subtraction works in
/// whole hours).
pub open spec fn spec_whole_hours(timezone_centi: int) -> int {
    if timezone_centi >= 0 {
        timezone_centi / 100
    } else {
        -((-timezone_centi) / 100)
    }
}

/// The universal-time Julian Day of a birth moment, in ticks of 1/2880
/// day: the timezone's whole hours are subtracted from the local hour
/// without carrying across the day, which the day-fraction arithmetic of
/// the Julian Day absorbs.
pub fn birth_moment_to_julian_day(moment: &ChartMoment) -> (jd: i64)
    requires
        1 <= moment.month <= 12,
        0 <= moment.hour <= 23,
        -10000 <= moment.timezone <= 10000,
    ensures
        jd == spec_julian_day_ticks(
            moment.year as int,
            moment.month as int,
            moment.day as int,
            moment.hour as int - spec_whole_hours(moment.timezone as int),
            moment.minute as int,
        ),
{
    let tz_hours = moment.timezone / 100;
    proof {
        assert(tz_hours == spec_whole_hours(moment.timezone as int));
    }
    let ut_hour = moment.hour - tz_hours;
    to_julian_day(moment.year, moment.month, moment.day, ut_hour, moment.minute)
}

/// The signed shortest-path change from one longitude to another, wrapped
/// into (-18000, 18000].
pub open spec fn spec_signed_motion(lon_before: int, lon_after: int) -> int {
    let d = lon_after - lon_before;
    if d > 18000 {
        d - 36000
    } else if d < -18000 {
        d + 36000
    } else {
        d
    }
}

/// Whether a body moved backward against the zodiac between two samples:
/// the signed shortest-path change of its longitude is negative.
pub fn is_retrograde_motion(lon_before: u32, lon_after: u32) -> (r: bool)
    requires
        lon_before < 36000,
        lon_after < 36000,
    ensures
        r == (spec_signed_motion(lon_before as int, lon_after as int) < 0),
{
    let d: i64 = lon_after as i64 - lon_before as i64;
    let wrapped: i64 = if d > 18000 {
        d - 36000
    } else if d < -18000 {
        d + 36000
    } else {
        d
    };
    wrapped < 0
}

/// A chart body is well formed: a normalized longitude, its sign fields
/// derived from it, and a house from 1 to 12.
pub open spec fn position_wf(p: PlanetPositionV) -> bool {
    &&& 0 <= p.total_degrees < 36000
    &&& p.degrees == p.total_degrees % 3000
    &&& p.sign == spec_sign_name(p.total_degrees / 3000)
    &&& 1 <= p.house <= 12
}

/// The cusp wheel of an Ascendant, as a ghost sequence.
pub open spec fn spec_cusp_wheel(asc: int) -> Seq<int> {
    Seq::new(12, |i: int| spec_cusp(asc, i))
}

/// A body record is correct for its name, longitude, wheel and motion.
pub open spec fn body_ok(
    p: PlanetPositionV,
    name: Seq<char>,
    lon: int,
    asc: int,
    retrograde: bool,
) -> bool {
    &&& position_wf(p)
    &&& p.planet == name
    &&& p.total_degrees == lon
    &&& p.house == spec_house_scan(lon, spec_cusp_wheel(asc), 0)
    &&& p.retrograde == retrograde
}

/// Build one chart body from its longitude: sign, degrees within sign,
/// house on the given wheel, and motion flag.
pub fn build_position(
    planet_name: &str,
    longitude: u32,
    house_cusps: &Vec<u32>,
    retrograde: bool,
) -> (r: PlanetPosition)
    requires
        longitude < 36000,
        house_cusps@.len() == 12,
        forall|i: int| 0 <= i < 12 ==> #[trigger] house_cusps@[i] < 36000,
    ensures
        r.deep_view().planet == planet_name@,
        r.deep_view().total_degrees == longitude as int,
        r.deep_view().retrograde == retrograde,
        position_wf(r.deep_view()),
        r.deep_view().house == spec_house_scan(
            longitude as int,
            crate::houses::cusps_ints(house_cusps@),
            0,
        ),
{
    let sign_pos = degrees_to_sign(longitude as i64);
    proof {
        vstd::arithmetic::div_mod::lemma_small_mod(longitude as nat, 36000);
    }
    let house = house_for_longitude(longitude, house_cusps);
    PlanetPosition {
        planet: String::from_str(planet_name),
        sign: sign_pos.sign,
        degrees: sign_pos.degrees,
        total_degrees: sign_pos.total_degrees,
        house,
        retrograde,
    }
}

/// The ten chart bodies in chart order, Sun first.
pub open spec fn chart_bodies(c: NatalChart) -> Seq<PlanetPositionV> {
    seq![
        c.sun.deep_view(),
        c.moon.deep_view(),
        c.mercury.deep_view(),
        c.venus.deep_view(),
        c.mars.deep_view(),
        c.jupiter.deep_view(),
        c.saturn.deep_view(),
        c.uranus.deep_view(),
        c.neptune.deep_view(),
        c.pluto.deep_view(),
    ]
}

/// A chart is well formed: its cusps are the Ascendant's equal-house
/// wheel, its angles are well-formed sign positions on the given degrees,
/// every body is correct for its longitude and wheel, the luminaries are
/// never retrograde, and the aspect list is exactly the qualifying
/// aspects of the ten bodies, sorted tightest first.
pub open spec fn chart_ok(c: NatalChart, a: ChartAngles) -> bool {
    &&& c.house_cusps@.len() == 12
    &&& forall|i: int|
        0 <= i < 12 ==> #[trigger] c.house_cusps@[i] as int == spec_cusp(a.ascendant as int, i)
    &&& sign_position_wf(c.ascendant.deep_view())
    &&& c.ascendant.deep_view().total_degrees == a.ascendant as int
    &&& sign_position_wf(c.midheaven.deep_view())
    &&& c.midheaven.deep_view().total_degrees == a.midheaven as int
    &&& body_ok(c.sun.deep_view(), "sun"@, a.sun as int, a.ascendant as int, false)
    &&& body_ok(c.moon.deep_view(), "moon"@, a.moon as int, a.ascendant as int, false)
    &&& body_ok(
        c.mercury.deep_view(),
        "mercury"@,
        a.mercury as int,
        a.ascendant as int,
        a.mercury_retrograde,
    )
    &&& body_ok(
        c.venus.deep_view(),
        "venus"@,
        a.venus as int,
        a.ascendant as int,
        a.venus_retrograde,
    )
    &&& body_ok(c.mars.deep_view(), "mars"@, a.mars as int, a.ascendant as int, a.mars_retrograde)
    &&& body_ok(
        c.jupiter.deep_view(),
        "jupiter"@,
        a.jupiter as int,
        a.ascendant as int,
        a.jupiter_retrograde,
    )
    &&& body_ok(
        c.saturn.deep_view(),
        "saturn"@,
        a.saturn as int,
        a.ascendant as int,
        a.saturn_retrograde,
    )
    &&& body_ok(
        c.uranus.deep_view(),
        "uranus"@,
        a.uranus as int,
        a.ascendant as int,
        a.uranus_retrograde,
    )
    &&& body_ok(
        c.neptune.deep_view(),
        "neptune"@,
        a.neptune as int,
        a.ascendant as int,
        a.neptune_retrograde,
    )
    &&& body_ok(
        c.pluto.deep_view(),
        "pluto"@,
        a.pluto as int,
        a.ascendant as int,
        a.pluto_retrograde,
    )
    &&& sorted_by_orb(c.aspects.deep_view())
    &&& c.aspects.deep_view().to_multiset() == collected_aspects(chart_bodies(c)).to_multiset()
}

/// Assemble a natal chart from the ten body longitudes, the two chart
/// angles and the eight motion flags, all in centi-degrees: equal-house
/// cusps from the Ascendant, a sign and house for every body, and the
/// aspect list sorted tightest first.
pub fn assemble_chart(angles: &ChartAngles) -> (r: NatalChart)
    requires
        angles.wf(),
    ensures
        chart_ok(r, *angles),
{
    let house_cusps = equal_house_cusps(angles.ascendant);

    let sun = build_position("sun", angles.sun, &house_cusps, false);
    let moon = build_position("moon", angles.moon, &house_cusps, false);
    let mercury = build_position(
        "mercury",
        angles.mercury,
        &house_cusps,
        angles.mercury_retrograde,
    );
    let venus = build_position("venus", angles.venus, &house_cusps, angles.venus_retrograde);
    let mars = build_position("mars", angles.mars, &house_cusps, angles.mars_retrograde);
    let jupiter = build_position(
        "jupiter",
        angles.jupiter,
        &house_cusps,
        angles.jupiter_retrograde,
    );
    let saturn = build_position("saturn", angles.saturn, &house_cusps, angles.saturn_retrograde);
    let uranus = build_position("uranus", angles.uranus, &house_cusps, angles.uranus_retrograde);
    let neptune = build_position(
        "neptune",
        angles.neptune,
        &house_cusps,
        angles.neptune_retrograde,
    );
    let pluto = build_position("pluto", angles.pluto, &house_cusps, angles.pluto_retrograde);

    let ascendant = degrees_to_sign(angles.ascendant as i64);
    let midheaven = degrees_to_sign(angles.midheaven as i64);
    proof {
        vstd::arithmetic::div_mod::lemma_small_mod(angles.ascendant as nat, 36000);
        vstd::arithmetic::div_mod::lemma_small_mod(angles.midheaven as nat, 36000);
    }

    let all_positions: Vec<PlanetPosition> = vec![
        sun.clone(),
        moon.clone(),
        mercury.clone(),
        venus.clone(),
        mars.clone(),
        jupiter.clone(),
        saturn.clone(),
        uranus.clone(),
        neptune.clone(),
        pluto.clone(),
    ];
    let aspects = calculate_aspects(all_positions.as_slice());

    let r = NatalChart {
        sun,
        moon,
        mercury,
        venus,
        mars,
        jupiter,
        saturn,
        uranus,
        neptune,
        pluto,
        ascendant,
        midheaven,
        aspects,
        house_cusps,
    };
    proof {
        assert(all_positions.deep_view() =~= chart_bodies(r));
        assert(crate::houses::cusps_ints(r.house_cusps@) =~= spec_cusp_wheel(
            angles.ascendant as int,
        ));
    }
    r
}

// ---------------------------------------------------------------------------
// AstrologyEngine — stateful wrapper
// ---------------------------------------------------------------------------

/// An astrology engine: the calendar- and angle-level operations as
/// methods.
pub struct AstrologyEngine;

impl AstrologyEngine {
    /// A fresh engine.
    pub fn new() -> Self {
        AstrologyEngine
    }

    /// Convert a calendar date and universal time to a Julian Day, in
    /// ticks of 1/2880 day.
    pub fn to_julian_day(&self, year: i32, month: u32, day: u32, hour: i32, minute: i32) -> (jd:
        i64)
        requires
            1 <= month <= 12,
        ensures
            jd == spec_julian_day_ticks(
                year as int,
                month as int,
                day as int,
                hour as int,
                minute as int,
            ),
    {
        to_julian_day(year, month, day, hour, minute)
    }

    /// The sun sign for a month and day by the traditional date
    /// boundaries.
    pub fn calculate_sun_sign(&self, month: u32, day: u32) -> (r: String)
        ensures
            r@ == crate::zodiac::spec_sun_sign(month as int, day as int),
    {
        crate::zodiac::calculate_sun_sign(month, day)
    }

    /// Convert an ecliptic longitude in centi-degrees to its sign
    /// position.
    pub fn degrees_to_sign(&self, total_centi_degrees: i64) -> (r: SignPosition)
        ensures
            r.total_degrees as int == total_centi_degrees as int % 36000,
            sign_position_wf(r.deep_view()),
    {
        degrees_to_sign(total_centi_degrees)
    }

    /// Assemble a natal chart from computed longitudes and flags.
    pub fn assemble_chart(&self, angles: &ChartAngles) -> (r: NatalChart)
        requires
            angles.wf(),
        ensures
            chart_ok(r, *angles),
    {
        assemble_chart(angles)
    }
}

impl Default for AstrologyEngine {
    /// A fresh engine, as `new` builds it.
    fn default() -> Self {
        AstrologyEngine::new()
    }
}

} // verus!
