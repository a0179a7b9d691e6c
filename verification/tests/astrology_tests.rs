use mysticism::astrology;
use mysticism::{AstroError, AstrologyEngine, BirthData};
use mysticism::astrology::{ChartAngles, ChartMoment};

fn ticks_to_days(ticks: i64) -> f64 {
    ticks as f64 / 2880.0
}

#[test]
fn astrology_julian_day_j2000() {
    // J2000.0 = 2000-01-01 12:00 -> JD 2451545.0
    let jd = astrology::to_julian_day(2000, 1, 1, 12, 0);
    assert!(
        (ticks_to_days(jd) - 2_451_545.0).abs() < 0.001,
        "J2000.0 JD mismatch: {}",
        ticks_to_days(jd)
    );
    // Half days are exact in ticks, so the value is exact here.
    assert_eq!(jd, 2_451_545 * 2880);
}

#[test]
fn integration_tests_julian_day_j2000() {
    let jd = astrology::to_julian_day(2000, 1, 1, 12, 0);
    assert!((ticks_to_days(jd) - 2_451_545.0).abs() < 0.001);
}

#[test]
fn julian_day_known_date() {
    // 1957-10-04 19:28 UT -> JD 2436116.31111 (Sputnik launch)
    let jd = astrology::to_julian_day(1957, 10, 4, 19, 28);
    assert!(
        (ticks_to_days(jd) - 2_436_116.31111).abs() < 0.001,
        "Sputnik JD mismatch: {}",
        ticks_to_days(jd)
    );
}

#[test]
fn julian_day_february_rolls_to_prior_year() {
    // 2000-02-29 00:00 and 2000-03-01 00:00 are a day apart.
    let feb = astrology::to_julian_day(2000, 2, 29, 0, 0);
    let mar = astrology::to_julian_day(2000, 3, 1, 0, 0);
    assert_eq!(mar - feb, 2880);
}

#[test]
fn sun_sign_known_dates() {
    assert_eq!(astrology::calculate_sun_sign(3, 25), "aries");
    assert_eq!(astrology::calculate_sun_sign(7, 4), "cancer");
    assert_eq!(astrology::calculate_sun_sign(12, 25), "capricorn");
    assert_eq!(astrology::calculate_sun_sign(1, 15), "capricorn");
    assert_eq!(astrology::calculate_sun_sign(2, 20), "pisces");
    assert_eq!(astrology::calculate_sun_sign(8, 15), "leo");
}

#[test]
fn known_birth_date_produces_expected_sun_sign() {
    // March 25 -> Aries
    assert_eq!(astrology::calculate_sun_sign(3, 25), "aries");
    // July 4 -> Cancer
    assert_eq!(astrology::calculate_sun_sign(7, 4), "cancer");
    // December 25 -> Capricorn
    assert_eq!(astrology::calculate_sun_sign(12, 25), "capricorn");
    // January 15 -> Capricorn
    assert_eq!(astrology::calculate_sun_sign(1, 15), "capricorn");
    // February 20 -> Pisces
    assert_eq!(astrology::calculate_sun_sign(2, 20), "pisces");
}

#[test]
fn sun_sign_boundary_days() {
    // The first and last day of a season's boundary.
    assert_eq!(astrology::calculate_sun_sign(3, 20), "pisces");
    assert_eq!(astrology::calculate_sun_sign(3, 21), "aries");
    assert_eq!(astrology::calculate_sun_sign(12, 21), "sagittarius");
    assert_eq!(astrology::calculate_sun_sign(12, 22), "capricorn");
    assert_eq!(astrology::calculate_sun_sign(1, 19), "capricorn");
    assert_eq!(astrology::calculate_sun_sign(1, 20), "aquarius");
}

#[test]
fn degrees_to_sign_basics() {
    // 0, 45 and 270 degrees, in centi-degrees.
    let pos = astrology::degrees_to_sign(0);
    assert_eq!(pos.sign, "aries");

    let pos2 = astrology::degrees_to_sign(4500);
    assert_eq!(pos2.sign, "taurus");

    let pos3 = astrology::degrees_to_sign(27000);
    assert_eq!(pos3.sign, "capricorn");
}

#[test]
fn degrees_to_sign_splits_degrees() {
    // 45 degrees is 15 degrees into Taurus.
    let pos = astrology::degrees_to_sign(4500);
    assert_eq!(pos.total_degrees, 4500);
    assert_eq!(pos.degrees, 1500);
}

#[test]
fn normalize_wraps_negative_angles() {
    // -90 degrees is 270 degrees; whole turns vanish.
    assert_eq!(mysticism::normalize_centi_degrees(-9000), 27000);
    assert_eq!(mysticism::normalize_centi_degrees(36000), 0);
    assert_eq!(mysticism::normalize_centi_degrees(72000 + 123), 123);
    assert_eq!(mysticism::normalize_centi_degrees(-36000 * 3 + 5), 5);
    let pos = astrology::degrees_to_sign(-9000);
    assert_eq!(pos.sign, "capricorn");
}

#[test]
fn engine_api() {
    let engine = AstrologyEngine::new();
    assert_eq!(engine.calculate_sun_sign(3, 25), "aries");

    let pos = engine.degrees_to_sign(12000);
    assert_eq!(pos.sign, "leo");
}

#[test]
fn astrology_engine_api() {
    let engine = AstrologyEngine::new();

    let sign = engine.calculate_sun_sign(8, 15);
    assert_eq!(sign, "leo");

    let pos = engine.degrees_to_sign(0);
    assert_eq!(pos.sign, "aries");

    let pos2 = engine.degrees_to_sign(12000);
    assert_eq!(pos2.sign, "leo");
}

#[test]
fn validate_birth_data_missing_field() {
    let birth = BirthData {
        year: 1990,
        month: 6,
        day: Some(15),
        hour: None,
        minute: Some(30),
        latitude: Some(40_712_800),
        longitude: Some(-74_006_000),
        timezone: Some(-400),
    };
    let r = astrology::validate_birth_data(&birth);
    assert!(matches!(r, Err(AstroError::MissingField)));
}

#[test]
fn validate_birth_data_complete() {
    let birth = BirthData {
        year: 1990,
        month: 6,
        day: Some(15),
        hour: Some(14),
        minute: Some(30),
        latitude: Some(40_712_800),
        longitude: Some(-74_006_000),
        timezone: Some(-400),
    };
    let m = astrology::validate_birth_data(&birth).unwrap();
    assert_eq!(m.year, 1990);
    assert_eq!(m.month, 6);
    assert_eq!(m.day, 15);
    assert_eq!(m.hour, 14);
    assert_eq!(m.timezone, -400);
}

#[test]
fn birth_moment_julian_day_subtracts_timezone() {
    // 1990-06-15 14:30 at UTC-4 is 18:30 universal time.
    let m = ChartMoment {
        year: 1990,
        month: 6,
        day: 15,
        hour: 14,
        minute: 30,
        latitude: 40_712_800,
        longitude: -74_006_000,
        timezone: -400,
    };
    let jd = astrology::birth_moment_to_julian_day(&m);
    assert_eq!(jd, astrology::to_julian_day(1990, 6, 15, 18, 30));
    assert_eq!(jd, 7_050_407_820);
}

/// The ephemeris longitudes of 1990-06-15 18:30 UT seen from New York,
/// rounded to centi-degrees.
fn summer_birth_angles() -> ChartAngles {
    ChartAngles {
        sun: 8439,
        moon: 34897,
        mercury: 6620,
        venus: 4918,
        mars: 1134,
        jupiter: 10612,
        saturn: 29407,
        uranus: 27829,
        neptune: 28382,
        pluto: 22452,
        ascendant: 1369,
        midheaven: 10592,
        mercury_retrograde: false,
        venus_retrograde: false,
        mars_retrograde: false,
        jupiter_retrograde: false,
        saturn_retrograde: true,
        uranus_retrograde: true,
        neptune_retrograde: true,
        pluto_retrograde: true,
    }
}

#[test]
fn chart_for_summer_birth() {
    // Birth 1990-06-15 14:30 local, lat 40.7128, lon -74.0060, tz -4:
    // the Sun stands in Gemini and the wheel has twelve cusps.
    let chart = astrology::assemble_chart(&summer_birth_angles());
    assert_eq!(chart.sun.sign, "gemini", "Sun sign mismatch");
    assert_eq!(chart.house_cusps.len(), 12);
}

#[test]
fn chart_aspects_sorted_by_orb() {
    let chart = astrology::assemble_chart(&summer_birth_angles());
    assert!(!chart.aspects.is_empty());
    for w in chart.aspects.windows(2) {
        assert!(w[0].orb <= w[1].orb, "aspects out of order");
    }
}

#[test]
fn chart_houses_and_signs_consistent() {
    let chart = astrology::assemble_chart(&summer_birth_angles());
    let bodies = [
        &chart.sun, &chart.moon, &chart.mercury, &chart.venus, &chart.mars,
        &chart.jupiter, &chart.saturn, &chart.uranus, &chart.neptune, &chart.pluto,
    ];
    for b in bodies {
        assert!((1..=12).contains(&b.house));
        assert_eq!(b.degrees, b.total_degrees % 3000);
    }
    assert_eq!(chart.sun.retrograde, false);
    assert_eq!(chart.moon.retrograde, false);
    assert_eq!(chart.saturn.retrograde, true);
    // The cusps are the Ascendant plus twelve equal steps.
    for (i, c) in chart.house_cusps.iter().enumerate() {
        assert_eq!(*c, (1369 + 3000 * i as u32) % 36000);
    }
}

#[test]
fn aspect_finder_exact_values() {
    // Two bodies 92.5 degrees apart: a square, 2.5 degrees from exact.
    let cusps = astrology::equal_house_cusps(0);
    let a = astrology::build_position("sun", 0, &cusps, false);
    let b = astrology::build_position("moon", 9250, &cusps, false);
    let aspects = astrology::calculate_aspects(&[a, b]);
    assert_eq!(aspects.len(), 1);
    assert_eq!(aspects[0].aspect_name, "Square");
    assert_eq!(aspects[0].exact_degrees, 9000);
    assert_eq!(aspects[0].actual_degrees, 9250);
    assert_eq!(aspects[0].orb, 250);
    assert_eq!(aspects[0].nature, "challenging");
}

#[test]
fn aspect_finder_no_aspect() {
    // 40 degrees of separation matches no table entry.
    let cusps = astrology::equal_house_cusps(0);
    let a = astrology::build_position("sun", 0, &cusps, false);
    let b = astrology::build_position("moon", 4000, &cusps, false);
    let aspects = astrology::calculate_aspects(&[a, b]);
    assert!(aspects.is_empty());
}

#[test]
fn angular_separation_wraps() {
    assert_eq!(astrology::angular_separation(35000, 1000), 2000);
    assert_eq!(astrology::angular_separation(0, 18000), 18000);
    assert_eq!(astrology::angular_separation(100, 100), 0);
}

#[test]
fn houses_partition_the_circle() {
    // On an equal-house wheel every longitude gets exactly one house.
    let cusps = astrology::equal_house_cusps(1369);
    for lon in (0..36000).step_by(97) {
        let h = astrology::house_for_longitude(lon, &cusps);
        assert!((1..=12).contains(&h));
        // The house is the offset from the Ascendant in 30-degree steps.
        let d = (lon as i64 - 1369).rem_euclid(36000);
        assert_eq!(h as i64, d / 3000 + 1);
    }
}

#[test]
fn retrograde_motion_wraps_correctly() {
    // Backward motion, plain and across the zero point.
    assert!(astrology::is_retrograde_motion(1000, 500));
    assert!(!astrology::is_retrograde_motion(500, 1000));
    // 359 -> 1 degrees is forward motion across zero.
    assert!(!astrology::is_retrograde_motion(35900, 100));
    // 1 -> 359 degrees is backward motion across zero.
    assert!(astrology::is_retrograde_motion(100, 35900));
}

#[test]
fn draw_zero_cards() {
    let cusps = astrology::equal_house_cusps(0);
    assert_eq!(cusps.len(), 12);
    let aspects = astrology::calculate_aspects(&[]);
    assert!(aspects.is_empty());
}

#[test]
fn aspect_orb_boundary() {
    // 66 degrees of separation is a sextile at exactly its full orb;
    // one hundredth more and no aspect matches.
    let cusps = astrology::equal_house_cusps(0);
    let a = astrology::build_position("sun", 0, &cusps, false);
    let b = astrology::build_position("moon", 6600, &cusps, false);
    let aspects = astrology::calculate_aspects(&[a, b]);
    assert_eq!(aspects.len(), 1);
    assert_eq!(aspects[0].aspect_name, "Sextile");
    assert_eq!(aspects[0].orb, 600);

    let a2 = astrology::build_position("sun", 0, &cusps, false);
    let b2 = astrology::build_position("moon", 6601, &cusps, false);
    assert!(astrology::calculate_aspects(&[a2, b2]).is_empty());
}

#[test]
fn aspect_bands_never_overlap() {
    // Sweep the whole half circle: no separation matches two entries.
    let cusps = astrology::equal_house_cusps(0);
    for sep in (0..=18000).step_by(50) {
        let a = astrology::build_position("sun", 0, &cusps, false);
        let b = astrology::build_position("moon", sep, &cusps, false);
        let aspects = astrology::calculate_aspects(&[a, b]);
        assert!(aspects.len() <= 1, "separation {} matched {} aspects", sep, aspects.len());
    }
}
