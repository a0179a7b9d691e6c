//! Divination engines: a tropical-zodiac astrology core (calendar, zodiac,
//! houses and aspects over exact hundredth-of-a-degree arithmetic), a tarot
//! deck with draws and spreads, and an I Ching hexagram caster.

mod angles;
mod aspects;
mod chart;
mod houses;
mod iching;
mod iching_data;
mod julian;
mod random;
mod strutil;
mod tarot;
mod tarot_data;
mod types;
mod zodiac;

pub mod astrology;

pub use angles::{lemma_normalize_periodic, normalize_centi_degrees, DEGREES_360};
pub use chart::AstrologyEngine;
pub use iching::IChingEngine;
pub use tarot::TarotEngine;
pub use types::{
    AstroError, BirthData, CastResult, ChartAspect, DrawnCard, FeedbackEntry, Hexagram,
    HexagramLine, NatalChart, PlanetPosition, SignPosition, SpreadDefinition, SpreadPosition,
    TarotCard, Trigram,
};

pub use iching::{
    binary_to_hexagram_number, build_cast_result, cast_hexagram, cast_wf, get_hexagram,
    get_lower_trigram, get_trigram, get_upper_trigram, is_changing, is_line_value,
    lemma_cast_names_its_hexagram, lemma_changing_lines_positions, line_value_to_binary,
    line_value_to_transformed_binary, spec_changing_lines, spec_lines_code, spec_transformed_code,
};
pub use iching_data::{
    all_hexagrams, all_trigrams, hexagram_code, king_wen_number, lemma_king_wen_bijection,
    spec_binary, spec_hexagram_code, spec_king_wen,
};
pub use tarot::{create_deck, draw_cards, filter_cards, filtered_cards, get_card, shuffle_deck, card_passes};
pub use tarot_data::{all_spreads, deck_wf, is_major_card, is_minor_card, spec_suit_name, spread_wf};
