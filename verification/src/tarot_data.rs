//! The 78-card deck and the spread layouts, as compile-time tables.
//!
//! The deck is the standard tarot: 22 major arcana (numbered 0 to 21) and
//! four suits of 14 ranks each. `spec_suit_name` fixes the suit order that
//! the deck is laid out in.

use vstd::prelude::*;

use crate::types::{SpreadDefinition, SpreadPosition, TarotCard, TarotCardV};

verus! {

/// The four minor-arcana suits, in deck order.
pub open spec fn spec_suit_name(s: int) -> Seq<char> {
    if s == 0 {
        "wands"@
    } else if s == 1 {
        "cups"@
    } else if s == 2 {
        "swords"@
    } else {
        "pentacles"@
    }
}

/// The identifier of trump `n`.
pub open spec fn spec_major_id(n: int) -> Seq<char> {
    if n == 0 {
        "major_00_fool"@
    } else if n == 1 {
        "major_01_magician"@
    } else if n == 2 {
        "major_02_high_priestess"@
    } else if n == 3 {
        "major_03_empress"@
    } else if n == 4 {
        "major_04_emperor"@
    } else if n == 5 {
        "major_05_hierophant"@
    } else if n == 6 {
        "major_06_lovers"@
    } else if n == 7 {
        "major_07_chariot"@
    } else if n == 8 {
        "major_08_strength"@
    } else if n == 9 {
        "major_09_hermit"@
    } else if n == 10 {
        "major_10_wheel_of_fortune"@
    } else if n == 11 {
        "major_11_justice"@
    } else if n == 12 {
        "major_12_hanged_man"@
    } else if n == 13 {
        "major_13_death"@
    } else if n == 14 {
        "major_14_temperance"@
    } else if n == 15 {
        "major_15_devil"@
    } else if n == 16 {
        "major_16_tower"@
    } else if n == 17 {
        "major_17_star"@
    } else if n == 18 {
        "major_18_moon"@
    } else if n == 19 {
        "major_19_sun"@
    } else if n == 20 {
        "major_20_judgement"@
    } else {
        "major_21_world"@
    }
}

/// The two-digit tag of rank `r` in card identifiers.
pub open spec fn spec_rank_tag(r: int) -> Seq<char> {
    if r == 1 {
        "01"@
    } else if r == 2 {
        "02"@
    } else if r == 3 {
        "03"@
    } else if r == 4 {
        "04"@
    } else if r == 5 {
        "05"@
    } else if r == 6 {
        "06"@
    } else if r == 7 {
        "07"@
    } else if r == 8 {
        "08"@
    } else if r == 9 {
        "09"@
    } else if r == 10 {
        "10"@
    } else if r == 11 {
        "11"@
    } else if r == 12 {
        "12"@
    } else if r == 13 {
        "13"@
    } else {
        "14"@
    }
}

/// The identifier of the minor card of suit `s` and rank `r`.
pub open spec fn spec_minor_id(s: int, r: int) -> Seq<char> {
    "minor_"@ + spec_suit_name(s) + "_"@ + spec_rank_tag(r)
}

/// A major arcana card: no suit, numbered by its place in the trumps and
/// carrying that trump's identifier.
pub open spec fn is_major_card(c: TarotCardV, number: int) -> bool {
    &&& c.arcana == "major"@
    &&& c.suit is None
    &&& c.number == number
    &&& c.id == spec_major_id(number)
}

/// A minor arcana card of the given suit (by deck order) and rank,
/// carrying the identifier built from both.
pub open spec fn is_minor_card(c: TarotCardV, suit: int, rank: int) -> bool {
    &&& c.arcana == "minor"@
    &&& c.suit == Some(spec_suit_name(suit))
    &&& c.number == rank
    &&& c.id == spec_minor_id(suit, rank)
}

/// A full deck: 22 trumps followed by the four suits, each ace to king.
pub open spec fn deck_wf(d: Seq<TarotCardV>) -> bool {
    &&& d.len() == 78
    &&& forall|i: int| 0 <= i < 22 ==> is_major_card(#[trigger] d[i], i)
    &&& forall|i: int| 22 <= i < 78 ==> is_minor_card(#[trigger] d[i], (i - 22) / 14, (i - 22) % 14 + 1)
}

/// Build one card from its fields.
fn make_card(
    id: &str,
    name: &str,
    number: i32,
    arcana: &str,
    suit: Option<&str>,
    up1: &str,
    up2: &str,
    rev1: &str,
    rev2: &str,
    meaning_upright: String,
    meaning_reversed: String,
    description: String,
    element: &str,
    planet: Option<&str>,
    zodiac: Option<&str>,
    numerology: i32,
) -> (c: TarotCard)
    ensures
        c.deep_view().id == id@,
        c.deep_view().name == name@,
        c.deep_view().number == number as int,
        c.deep_view().arcana == arcana@,
        c.deep_view().suit == suit.deep_view(),
        c.deep_view().element == element@,
        c.deep_view().numerology == numerology as int,
{
    let keywords_upright: Vec<String> = vec![String::from_str(up1), String::from_str(up2)];
    let keywords_reversed: Vec<String> = vec![String::from_str(rev1), String::from_str(rev2)];
    let suit_owned: Option<String> = match suit {
        Some(s) => Some(String::from_str(s)),
        None => None,
    };
    let planet_owned: Option<String> = match planet {
        Some(s) => Some(String::from_str(s)),
        None => None,
    };
    let zodiac_owned: Option<String> = match zodiac {
        Some(s) => Some(String::from_str(s)),
        None => None,
    };
    TarotCard {
        id: String::from_str(id),
        name: String::from_str(name),
        number,
        arcana: String::from_str(arcana),
        suit: suit_owned,
        keywords_upright,
        keywords_reversed,
        meaning_upright,
        meaning_reversed,
        description,
        element: String::from_str(element),
        planet: planet_owned,
        zodiac: zodiac_owned,
        numerology,
    }
}

/// The trump at the given place in the major arcana.
pub fn major_card(n: usize) -> (c: TarotCard)
    requires
        n < 22,
    ensures
        is_major_card(c.deep_view(), n as int),
{
    let number = n as i32;
    match n {
        0 => make_card(
            "major_00_fool", "The Fool", number, "major", None,
            "new beginnings", "innocence", "recklessness", "naivety",
            String::from_str("A leap of faith into the unknown."),
            String::from_str("Hesitation, or a risk taken blindly."),
            String::from_str("A wanderer at the cliff edge, open to whatever comes."),
            "air", Some("uranus"), None, number,
        ),
        1 => make_card(
            "major_01_magician", "The Magician", number, "major", None,
            "willpower", "skill", "manipulation", "untapped talent",
            String::from_str("Every tool needed is already at hand."),
            String::from_str("Ability turned to trickery or left idle."),
            String::from_str("A figure channeling the four elements into action."),
            "air", Some("mercury"), None, number,
        ),
        2 => make_card(
            "major_02_high_priestess", "The High Priestess", number, "major", None,
            "intuition", "mystery", "secrets withheld", "disconnection",
            String::from_str("Knowledge that arrives without being spoken."),
            String::from_str("An inner voice ignored or obscured."),
            String::from_str("A veiled keeper of what lies beneath the surface."),
            "water", Some("moon"), None, number,
        ),
        3 => make_card(
            "major_03_empress", "The Empress", number, "major", None,
            "abundance", "nurturing", "dependence", "stagnation",
            String::from_str("Growth fed by care and patience."),
            String::from_str("Care that smothers, or a fallow season."),
            String::from_str("A crowned figure in a flowering field."),
            "earth", Some("venus"), None, number,
        ),
        4 => make_card(
            "major_04_emperor", "The Emperor", number, "major", None,
            "authority", "structure", "rigidity", "domination",
            String::from_str("Order built to shelter what matters."),
            String::from_str("Rule hardened into control."),
            String::from_str("A sovereign on a stone throne, steady and stern."),
            "fire", None, Some("aries"), number,
        ),
        5 => make_card(
            "major_05_hierophant", "The Hierophant", number, "major", None,
            "tradition", "guidance", "dogma", "rebellion",
            String::from_str("Wisdom handed down through settled forms."),
            String::from_str("Convention questioned or outgrown."),
            String::from_str("A teacher joining the everyday to the sacred."),
            "earth", None, Some("taurus"), number,
        ),
        6 => make_card(
            "major_06_lovers", "The Lovers", number, "major", None,
            "union", "choice", "disharmony", "imbalance",
            String::from_str("A bond sealed by a deliberate choice."),
            String::from_str("Values at odds, a choice avoided."),
            String::from_str("Two figures beneath an angel, at a crossroads."),
            "air", None, Some("gemini"), number,
        ),
        7 => make_card(
            "major_07_chariot", "The Chariot", number, "major", None,
            "determination", "victory", "lost direction", "opposition",
            String::from_str("Opposing forces driven forward as one."),
            String::from_str("Momentum without a destination."),
            String::from_str("A charioteer holding two sphinxes to one course."),
            "water", None, Some("cancer"), number,
        ),
        8 => make_card(
            "major_08_strength", "Strength", number, "major", None,
            "courage", "patience", "self-doubt", "raw emotion",
            String::from_str("Gentleness that outlasts force."),
            String::from_str("Nerve shaken, or temper off the leash."),
            String::from_str("A calm figure closing a lion's mouth by hand."),
            "fire", None, Some("leo"), number,
        ),
        9 => make_card(
            "major_09_hermit", "The Hermit", number, "major", None,
            "introspection", "seeking", "isolation", "withdrawal",
            String::from_str("An answer found by stepping away."),
            String::from_str("Solitude curdled into loneliness."),
            String::from_str("A lantern raised alone on a mountain path."),
            "earth", None, Some("virgo"), number,
        ),
        10 => make_card(
            "major_10_wheel_of_fortune", "Wheel of Fortune", number, "major", None,
            "cycles", "turning point", "resistance to change", "bad luck",
            String::from_str("The wheel turns and the scene changes."),
            String::from_str("Clinging to a spoke as the wheel moves on."),
            String::from_str("A great wheel ringed by rising and falling figures."),
            "fire", Some("jupiter"), None, number,
        ),
        11 => make_card(
            "major_11_justice", "Justice", number, "major", None,
            "fairness", "accountability", "bias", "avoidance",
            String::from_str("Each cause weighed to its true consequence."),
            String::from_str("Scales tipped, or a reckoning dodged."),
            String::from_str("Sword and scales held in perfect balance."),
            "air", None, Some("libra"), number,
        ),
        12 => make_card(
            "major_12_hanged_man", "The Hanged Man", number, "major", None,
            "surrender", "new perspective", "stalling", "martyrdom",
            String::from_str("Stillness that turns the world over."),
            String::from_str("A pause stretched into paralysis."),
            String::from_str("A figure suspended upside down, serene."),
            "water", Some("neptune"), None, number,
        ),
        13 => make_card(
            "major_13_death", "Death", number, "major", None,
            "endings", "transformation", "resistance", "decay",
            String::from_str("One chapter closes so another can open."),
            String::from_str("An ending refused past its season."),
            String::from_str("A pale rider before whom all things change."),
            "water", None, Some("scorpio"), number,
        ),
        14 => make_card(
            "major_14_temperance", "Temperance", number, "major", None,
            "balance", "moderation", "excess", "discord",
            String::from_str("Opposites blended into something finer."),
            String::from_str("A mixture gone to one extreme."),
            String::from_str("An angel pouring water between two cups."),
            "fire", None, Some("sagittarius"), number,
        ),
        15 => make_card(
            "major_15_devil", "The Devil", number, "major", None,
            "bondage", "materialism", "release", "reclaimed power",
            String::from_str("Chains worn loosely and mistaken for fate."),
            String::from_str("The chain slips; the hold breaks."),
            String::from_str("Two figures tethered beneath a horned shadow."),
            "earth", None, Some("capricorn"), number,
        ),
        16 => make_card(
            "major_16_tower", "The Tower", number, "major", None,
            "upheaval", "revelation", "disaster averted", "fear of change",
            String::from_str("A false structure struck down in a flash."),
            String::from_str("The collapse resisted, or narrowly escaped."),
            String::from_str("Lightning splitting a crowned tower."),
            "fire", Some("mars"), None, number,
        ),
        17 => make_card(
            "major_17_star", "The Star", number, "major", None,
            "hope", "renewal", "despair", "faith lost",
            String::from_str("Quiet light after the storm."),
            String::from_str("The horizon dimmed by doubt."),
            String::from_str("A figure pouring water under a bright star."),
            "air", None, Some("aquarius"), number,
        ),
        18 => make_card(
            "major_18_moon", "The Moon", number, "major", None,
            "illusion", "the unconscious", "clarity", "fear released",
            String::from_str("A path walked by half-light and instinct."),
            String::from_str("Shapes in the dark resolve into the familiar."),
            String::from_str("Two towers under a clouded moon, a dog and a wolf."),
            "water", None, Some("pisces"), number,
        ),
        19 => make_card(
            "major_19_sun", "The Sun", number, "major", None,
            "joy", "vitality", "clouded mood", "delayed success",
            String::from_str("Everything plainly lit and thriving."),
            String::from_str("Warmth present but briefly overcast."),
            String::from_str("A child on horseback under a full sun."),
            "fire", Some("sun"), None, number,
        ),
        20 => make_card(
            "major_20_judgement", "Judgement", number, "major", None,
            "awakening", "reckoning", "self-doubt", "a call refused",
            String::from_str("A summons to rise and account for the past."),
            String::from_str("The call heard but left unanswered."),
            String::from_str("Figures rising at the sound of a trumpet."),
            "fire", Some("pluto"), None, number,
        ),
        _ => make_card(
            "major_21_world", "The World", number, "major", None,
            "completion", "wholeness", "loose ends", "closure sought",
            String::from_str("The circle closed; the journey fulfilled."),
            String::from_str("Almost finished, one step remaining."),
            String::from_str("A dancer within a laurel wreath, all corners met."),
            "earth", Some("saturn"), None, number,
        ),
    }
}

/// The lower-case suit name at the given place in deck order.
fn suit_name(s: usize) -> (r: &'static str)
    requires
        s < 4,
    ensures
        r@ == spec_suit_name(s as int),
{
    match s {
        0 => "wands",
        1 => "cups",
        2 => "swords",
        _ => "pentacles",
    }
}

/// The suit name with its first letter raised, for card titles.
fn suit_title(s: usize) -> &'static str
    requires
        s < 4,
{
    match s {
        0 => "Wands",
        1 => "Cups",
        2 => "Swords",
        _ => "Pentacles",
    }
}

/// The element tied to each suit.
fn suit_element(s: usize) -> &'static str
    requires
        s < 4,
{
    match s {
        0 => "fire",
        1 => "water",
        2 => "air",
        _ => "earth",
    }
}

/// The theme each suit speaks to, used in generated keywords.
fn suit_theme(s: usize) -> &'static str
    requires
        s < 4,
{
    match s {
        0 => "creative drive",
        1 => "emotional life",
        2 => "clear thought",
        _ => "material ground",
    }
}

/// The rank title for ranks 1 (ace) through 14 (king).
fn rank_name(rank: usize) -> &'static str
    requires
        1 <= rank <= 14,
{
    match rank {
        1 => "Ace",
        2 => "Two",
        3 => "Three",
        4 => "Four",
        5 => "Five",
        6 => "Six",
        7 => "Seven",
        8 => "Eight",
        9 => "Nine",
        10 => "Ten",
        11 => "Page",
        12 => "Knight",
        13 => "Queen",
        _ => "King",
    }
}

/// The keynote of each rank, used in generated keywords.
fn rank_theme(rank: usize) -> &'static str
    requires
        1 <= rank <= 14,
{
    match rank {
        1 => "a fresh spark",
        2 => "a meeting of two",
        3 => "first growth",
        4 => "a settled base",
        5 => "friction",
        6 => "harmony restored",
        7 => "a test of patience",
        8 => "steady effort",
        9 => "near fulfilment",
        10 => "a cycle completed",
        11 => "a curious messenger",
        12 => "a driven quest",
        13 => "mature insight",
        _ => "assured command",
    }
}

/// The rank's two-digit tag for card identifiers.
fn rank_tag(rank: usize) -> (r: &'static str)
    requires
        1 <= rank <= 14,
    ensures
        r@ == spec_rank_tag(rank as int),
{
    match rank {
        1 => "01",
        2 => "02",
        3 => "03",
        4 => "04",
        5 => "05",
        6 => "06",
        7 => "07",
        8 => "08",
        9 => "09",
        10 => "10",
        11 => "11",
        12 => "12",
        13 => "13",
        _ => "14",
    }
}

/// The minor card of the given suit (by deck order) and rank.
pub fn minor_card(s: usize, rank: usize) -> (c: TarotCard)
    requires
        s < 4,
        1 <= rank <= 14,
    ensures
        is_minor_card(c.deep_view(), s as int, rank as int),
{
    let id = String::from_str("minor_").concat(suit_name(s)).concat("_").concat(rank_tag(rank));
    proof {
        assert(id@ =~= spec_minor_id(s as int, rank as int));
    }
    let name = String::from_str(rank_name(rank)).concat(" of ").concat(suit_title(s));
    let meaning_upright = String::from_str("Upright, this card speaks of ")
        .concat(rank_theme(rank))
        .concat(" within the ")
        .concat(suit_theme(s))
        .concat(".");
    let meaning_reversed = String::from_str("Reversed, it warns that ")
        .concat(rank_theme(rank))
        .concat(" is blocked or overturned.");
    let description = name.clone().concat(", a card of the ").concat(suit_element(s)).concat(
        " element.",
    );
    make_card(
        id.as_str(),
        name.as_str(),
        rank as i32,
        "minor",
        Some(suit_name(s)),
        rank_theme(rank),
        suit_theme(s),
        "reversal of its promise",
        "energy withheld",
        meaning_upright,
        meaning_reversed,
        description,
        suit_element(s),
        None,
        None,
        rank as i32,
    )
}

/// One slot of a spread.
fn make_position(index: usize, name: &str, description: &str) -> (p: SpreadPosition)
    ensures
        p.deep_view().index == index as int,
{
    SpreadPosition {
        index,
        name: String::from_str(name),
        description: String::from_str(description),
    }
}

/// A spread whose slot count always matches its layout.
pub open spec fn spread_wf(s: crate::types::SpreadDefinitionV) -> bool {
    &&& s.card_count == s.positions.len()
    &&& forall|i: int| 0 <= i < s.positions.len() ==> (#[trigger] s.positions[i]).index == i
}

/// Build one spread from its slots, counting the cards it deals.
fn make_spread(id: &str, name: &str, description: &str, positions: Vec<SpreadPosition>) -> (s:
    SpreadDefinition)
    requires
        forall|i: int|
            0 <= i < positions@.len() ==> (#[trigger] positions@[i]).index as int == i,
    ensures
        spread_wf(s.deep_view()),
        s.deep_view().id == id@,
        s.deep_view().card_count == positions@.len(),
{
    let card_count = positions.len();
    SpreadDefinition {
        id: String::from_str(id),
        name: String::from_str(name),
        description: String::from_str(description),
        positions,
        card_count,
    }
}

/// The built-in spread layouts, Celtic Cross among them.
pub fn all_spreads() -> (r: Vec<SpreadDefinition>)
    ensures
        forall|i: int| 0 <= i < r.deep_view().len() ==> spread_wf(#[trigger] r.deep_view()[i]),
        r.deep_view().len() == 3,
        r.deep_view()[0].id == "single_card"@ && r.deep_view()[0].card_count == 1,
        r.deep_view()[1].id == "three_card"@ && r.deep_view()[1].card_count == 3,
        r.deep_view()[2].id == "celtic_cross"@ && r.deep_view()[2].card_count == 10,
{
    let single: Vec<SpreadPosition> = vec![
        make_position(0, "The Card", "The one answer the moment offers."),
    ];
    let three: Vec<SpreadPosition> = vec![
        make_position(0, "Past", "What led here."),
        make_position(1, "Present", "Where things stand."),
        make_position(2, "Future", "Where this is heading."),
    ];
    let celtic: Vec<SpreadPosition> = vec![
        make_position(0, "Present", "The heart of the matter."),
        make_position(1, "Challenge", "What crosses it."),
        make_position(2, "Foundation", "What lies beneath."),
        make_position(3, "Past", "What is passing away."),
        make_position(4, "Crown", "What could come to be."),
        make_position(5, "Near Future", "What approaches."),
        make_position(6, "Self", "How the querent stands."),
        make_position(7, "Environment", "The currents around."),
        make_position(8, "Hopes and Fears", "What is wished and dreaded."),
        make_position(9, "Outcome", "Where it resolves."),
    ];
    let spreads: Vec<SpreadDefinition> = vec![
        make_spread("single_card", "Single Card", "One card, one question.", single),
        make_spread("three_card", "Three Card", "Past, present and future.", three),
        make_spread(
            "celtic_cross",
            "Celtic Cross",
            "The classic ten-card reading.",
            celtic,
        ),
    ];
    spreads
}

} // verus!
