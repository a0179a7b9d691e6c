//! The astrology engine's public face: angle and calendar arithmetic, the
//! zodiac, houses, aspects and chart assembly, gathered from the modules
//! that prove them.

pub use crate::angles::{lemma_normalize_periodic, normalize_centi_degrees, DEGREES_360};
pub use crate::aspects::{
    angular_separation, calculate_aspects, collected_aspects, lemma_aspect_bands_disjoint,
    sorted_by_orb, spec_aspect, spec_aspect_degrees, spec_aspect_orb, spec_orb_distance,
    spec_qualifies, spec_separation, ASPECT_COUNT,
};
pub use crate::chart::{
    assemble_chart, birth_data_complete, birth_moment_to_julian_day, body_ok, build_position,
    chart_bodies, chart_ok, is_retrograde_motion, position_wf, spec_signed_motion,
    spec_whole_hours, validate_birth_data, AstrologyEngine, ChartAngles, ChartMoment,
};
pub use crate::houses::{
    cusps_ints, equal_house_cusps, house_for_longitude, in_arc, lemma_equal_houses_partition,
    spec_cusp, spec_house_scan,
};
pub use crate::julian::{spec_julian_day_ticks, to_julian_day, TICKS_PER_DAY};
pub use crate::zodiac::{
    calculate_sun_sign, degrees_to_sign, sign_name, sign_position_wf, spec_sign_name,
    spec_sun_sign,
};
