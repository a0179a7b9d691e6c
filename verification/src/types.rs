//! The data records the engines produce and consume.
//!
//! Every exec record has a ghost counterpart (its deep view) over `Seq` and
//! `int`, which the contracts speak of. Angle fields hold exact hundredths of
//! a degree (centi-degrees); see `angles`.

use vstd::prelude::*;

verus! {

// ---------------------------------------------------------------------------
// Tarot records
// ---------------------------------------------------------------------------

/// One card of the 78-card deck.
#[derive(Debug)]
pub struct TarotCard {
    pub id: String,
    pub name: String,
    pub number: i32,
    pub arcana: String,
    /// `None` for major arcana cards.
    pub suit: Option<String>,
    pub keywords_upright: Vec<String>,
    pub keywords_reversed: Vec<String>,
    pub meaning_upright: String,
    pub meaning_reversed: String,
    pub description: String,
    pub element: String,
    pub planet: Option<String>,
    pub zodiac: Option<String>,
    pub numerology: i32,
}

pub ghost struct TarotCardV {
    pub id: Seq<char>,
    pub name: Seq<char>,
    pub number: int,
    pub arcana: Seq<char>,
    pub suit: Option<Seq<char>>,
    pub keywords_upright: Seq<Seq<char>>,
    pub keywords_reversed: Seq<Seq<char>>,
    pub meaning_upright: Seq<char>,
    pub meaning_reversed: Seq<char>,
    pub description: Seq<char>,
    pub element: Seq<char>,
    pub planet: Option<Seq<char>>,
    pub zodiac: Option<Seq<char>>,
    pub numerology: int,
}

impl DeepView for TarotCard {
    type V = TarotCardV;

    open spec fn deep_view(&self) -> TarotCardV {
        TarotCardV {
            id: self.id.deep_view(),
            name: self.name.deep_view(),
            number: self.number as int,
            arcana: self.arcana.deep_view(),
            suit: self.suit.deep_view(),
            keywords_upright: self.keywords_upright.deep_view(),
            keywords_reversed: self.keywords_reversed.deep_view(),
            meaning_upright: self.meaning_upright.deep_view(),
            meaning_reversed: self.meaning_reversed.deep_view(),
            description: self.description.deep_view(),
            element: self.element.deep_view(),
            planet: self.planet.deep_view(),
            zodiac: self.zodiac.deep_view(),
            numerology: self.numerology as int,
        }
    }
}

/// A card dealt from the deck, with its orientation and slot.
#[derive(Debug)]
pub struct DrawnCard {
    pub card: TarotCard,
    pub reversed: bool,
    pub position_index: usize,
}

pub ghost struct DrawnCardV {
    pub card: TarotCardV,
    pub reversed: bool,
    pub position_index: int,
}

impl DeepView for DrawnCard {
    type V = DrawnCardV;

    open spec fn deep_view(&self) -> DrawnCardV {
        DrawnCardV {
            card: self.card.deep_view(),
            reversed: self.reversed,
            position_index: self.position_index as int,
        }
    }
}

/// One slot of a spread layout.
#[derive(Debug)]
pub struct SpreadPosition {
    pub index: usize,
    pub name: String,
    pub description: String,
}

pub ghost struct SpreadPositionV {
    pub index: int,
    pub name: Seq<char>,
    pub description: Seq<char>,
}

impl DeepView for SpreadPosition {
    type V = SpreadPositionV;

    open spec fn deep_view(&self) -> SpreadPositionV {
        SpreadPositionV {
            index: self.index as int,
            name: self.name.deep_view(),
            description: self.description.deep_view(),
        }
    }
}

/// A named layout: how many cards are dealt and what each slot means.
#[derive(Debug)]
pub struct SpreadDefinition {
    pub id: String,
    pub name: String,
    pub description: String,
    pub positions: Vec<SpreadPosition>,
    pub card_count: usize,
}

pub ghost struct SpreadDefinitionV {
    pub id: Seq<char>,
    pub name: Seq<char>,
    pub description: Seq<char>,
    pub positions: Seq<SpreadPositionV>,
    pub card_count: int,
}

impl DeepView for SpreadDefinition {
    type V = SpreadDefinitionV;

    open spec fn deep_view(&self) -> SpreadDefinitionV {
        SpreadDefinitionV {
            id: self.id.deep_view(),
            name: self.name.deep_view(),
            description: self.description.deep_view(),
            positions: self.positions.deep_view(),
            card_count: self.card_count as int,
        }
    }
}

// ---------------------------------------------------------------------------
// I Ching records
// ---------------------------------------------------------------------------

/// One of the eight trigrams.
#[derive(Debug)]
pub struct Trigram {
    pub number: u32,
    pub name: String,
    pub english_name: String,
    pub character: String,
    pub binary: String,
    pub lines: Vec<u8>,
    pub attribute: String,
    pub image: String,
    pub family: String,
    pub element: String,
    pub direction: String,
    pub body_part: String,
}

pub ghost struct TrigramV {
    pub number: int,
    pub name: Seq<char>,
    pub english_name: Seq<char>,
    pub character: Seq<char>,
    pub binary: Seq<char>,
    pub lines: Seq<u8>,
    pub attribute: Seq<char>,
    pub image: Seq<char>,
    pub family: Seq<char>,
    pub element: Seq<char>,
    pub direction: Seq<char>,
    pub body_part: Seq<char>,
}

impl DeepView for Trigram {
    type V = TrigramV;

    open spec fn deep_view(&self) -> TrigramV {
        TrigramV {
            number: self.number as int,
            name: self.name.deep_view(),
            english_name: self.english_name.deep_view(),
            character: self.character.deep_view(),
            binary: self.binary.deep_view(),
            lines: self.lines.deep_view(),
            attribute: self.attribute.deep_view(),
            image: self.image.deep_view(),
            family: self.family.deep_view(),
            element: self.element.deep_view(),
            direction: self.direction.deep_view(),
            body_part: self.body_part.deep_view(),
        }
    }
}

/// The reading attached to one line of a hexagram.
#[derive(Debug)]
pub struct HexagramLine {
    pub position: u32,
    pub text: String,
    pub meaning: String,
}

pub ghost struct HexagramLineV {
    pub position: int,
    pub text: Seq<char>,
    pub meaning: Seq<char>,
}

impl DeepView for HexagramLine {
    type V = HexagramLineV;

    open spec fn deep_view(&self) -> HexagramLineV {
        HexagramLineV {
            position: self.position as int,
            text: self.text.deep_view(),
            meaning: self.meaning.deep_view(),
        }
    }
}

/// One of the 64 hexagrams, in King Wen order.
#[derive(Debug)]
pub struct Hexagram {
    pub number: u32,
    pub name: String,
    pub english_name: String,
    pub character: String,
    pub binary: String,
    pub top_trigram: u32,
    pub bottom_trigram: u32,
    pub judgment: String,
    pub image: String,
    pub lines: Vec<HexagramLine>,
    pub keywords: Vec<String>,
    pub description: String,
}

pub ghost struct HexagramV {
    pub number: int,
    pub name: Seq<char>,
    pub english_name: Seq<char>,
    pub character: Seq<char>,
    pub binary: Seq<char>,
    pub top_trigram: int,
    pub bottom_trigram: int,
    pub judgment: Seq<char>,
    pub image: Seq<char>,
    pub lines: Seq<HexagramLineV>,
    pub keywords: Seq<Seq<char>>,
    pub description: Seq<char>,
}

impl DeepView for Hexagram {
    type V = HexagramV;

    open spec fn deep_view(&self) -> HexagramV {
        HexagramV {
            number: self.number as int,
            name: self.name.deep_view(),
            english_name: self.english_name.deep_view(),
            character: self.character.deep_view(),
            binary: self.binary.deep_view(),
            top_trigram: self.top_trigram as int,
            bottom_trigram: self.bottom_trigram as int,
            judgment: self.judgment.deep_view(),
            image: self.image.deep_view(),
            lines: self.lines.deep_view(),
            keywords: self.keywords.deep_view(),
            description: self.description.deep_view(),
        }
    }
}

/// The outcome of casting a hexagram with the three-coin method.
#[derive(Debug)]
pub struct CastResult {
    /// Raw coin sums for each of the six lines (6, 7, 8 or 9), bottom first.
    pub lines: Vec<u8>,
    /// One-based positions of the changing lines.
    pub changing_lines: Vec<usize>,
    pub hexagram_number: u32,
    pub transformed_hexagram_number: Option<u32>,
    pub binary: String,
    pub transformed_binary: Option<String>,
}

pub ghost struct CastResultV {
    pub lines: Seq<u8>,
    pub changing_lines: Seq<usize>,
    pub hexagram_number: int,
    pub transformed_hexagram_number: Option<u32>,
    pub binary: Seq<char>,
    pub transformed_binary: Option<Seq<char>>,
}

impl DeepView for CastResult {
    type V = CastResultV;

    open spec fn deep_view(&self) -> CastResultV {
        CastResultV {
            lines: self.lines.deep_view(),
            changing_lines: self.changing_lines.deep_view(),
            hexagram_number: self.hexagram_number as int,
            transformed_hexagram_number: self.transformed_hexagram_number.deep_view(),
            binary: self.binary.deep_view(),
            transformed_binary: self.transformed_binary.deep_view(),
        }
    }
}

// ---------------------------------------------------------------------------
// Astrology records
// ---------------------------------------------------------------------------

/// The input record for a natal chart.
///
/// `year` and `month` are always present; the rest is optional and a chart
/// computation demands all of it. Latitude and longitude are in millionths
/// of a degree (north and east positive); the timezone is the UTC offset in
/// hundredths of an hour (so -400 is four hours west of Greenwich).
#[derive(Debug)]
pub struct BirthData {
    pub year: i32,
    /// 1-12.
    pub month: u32,
    /// 1-31.
    pub day: Option<u32>,
    /// 0-23.
    pub hour: Option<i32>,
    /// 0-59.
    pub minute: Option<i32>,
    /// Micro-degrees, north positive.
    pub latitude: Option<i64>,
    /// Micro-degrees, east positive.
    pub longitude: Option<i64>,
    /// UTC offset in centi-hours.
    pub timezone: Option<i32>,
}

/// A point of the ecliptic, as a zodiac sign and a degree within it.
///
/// Degrees are centi-degrees; `degrees` is always `total_degrees` reduced
/// modulo one sign (30 degrees).
#[derive(Debug)]
pub struct SignPosition {
    pub sign: String,
    /// Centi-degrees within the sign, 0 to 2999.
    pub degrees: u32,
    /// Centi-degrees along the ecliptic, 0 to 35999.
    pub total_degrees: u32,
}

pub ghost struct SignPositionV {
    pub sign: Seq<char>,
    pub degrees: int,
    pub total_degrees: int,
}

impl DeepView for SignPosition {
    type V = SignPositionV;

    open spec fn deep_view(&self) -> SignPositionV {
        SignPositionV {
            sign: self.sign.deep_view(),
            degrees: self.degrees as int,
            total_degrees: self.total_degrees as int,
        }
    }
}

/// One body's place in a chart: sign, house and motion.
#[derive(Debug)]
pub struct PlanetPosition {
    pub planet: String,
    pub sign: String,
    /// Centi-degrees within the sign, 0 to 2999.
    pub degrees: u32,
    /// Centi-degrees along the ecliptic, 0 to 35999.
    pub total_degrees: u32,
    /// 1-12.
    pub house: usize,
    pub retrograde: bool,
}

pub ghost struct PlanetPositionV {
    pub planet: Seq<char>,
    pub sign: Seq<char>,
    pub degrees: int,
    pub total_degrees: int,
    pub house: int,
    pub retrograde: bool,
}

impl DeepView for PlanetPosition {
    type V = PlanetPositionV;

    open spec fn deep_view(&self) -> PlanetPositionV {
        PlanetPositionV {
            planet: self.planet.deep_view(),
            sign: self.sign.deep_view(),
            degrees: self.degrees as int,
            total_degrees: self.total_degrees as int,
            house: self.house as int,
            retrograde: self.retrograde,
        }
    }
}

/// An angular relation between two bodies, measured against a fixed table.
#[derive(Debug)]
pub struct ChartAspect {
    pub planet1: String,
    pub planet2: String,
    pub aspect_name: String,
    pub aspect_symbol: String,
    /// The defining angle of the aspect, centi-degrees.
    pub exact_degrees: u32,
    /// The measured separation of the pair, centi-degrees, 0 to 18000.
    pub actual_degrees: u32,
    /// Deviation from the exact angle, centi-degrees.
    pub orb: u32,
    pub nature: String,
}

pub ghost struct ChartAspectV {
    pub planet1: Seq<char>,
    pub planet2: Seq<char>,
    pub aspect_name: Seq<char>,
    pub aspect_symbol: Seq<char>,
    pub exact_degrees: int,
    pub actual_degrees: int,
    pub orb: int,
    pub nature: Seq<char>,
}

impl DeepView for ChartAspect {
    type V = ChartAspectV;

    open spec fn deep_view(&self) -> ChartAspectV {
        ChartAspectV {
            planet1: self.planet1.deep_view(),
            planet2: self.planet2.deep_view(),
            aspect_name: self.aspect_name.deep_view(),
            aspect_symbol: self.aspect_symbol.deep_view(),
            exact_degrees: self.exact_degrees as int,
            actual_degrees: self.actual_degrees as int,
            orb: self.orb as int,
            nature: self.nature.deep_view(),
        }
    }
}

/// A complete natal chart: the ten bodies, the two chart angles, the twelve
/// equal-house cusps and every aspect among the bodies, tightest first.
#[derive(Debug)]
pub struct NatalChart {
    pub sun: PlanetPosition,
    pub moon: PlanetPosition,
    pub mercury: PlanetPosition,
    pub venus: PlanetPosition,
    pub mars: PlanetPosition,
    pub jupiter: PlanetPosition,
    pub saturn: PlanetPosition,
    pub uranus: PlanetPosition,
    pub neptune: PlanetPosition,
    pub pluto: PlanetPosition,
    pub ascendant: SignPosition,
    pub midheaven: SignPosition,
    pub aspects: Vec<ChartAspect>,
    /// Centi-degrees, twelve entries.
    pub house_cusps: Vec<u32>,
}

/// A remembered reaction to one reading element.
#[derive(Debug)]
pub struct FeedbackEntry {
    pub element: String,
    pub user_text: String,
    pub timestamp: u64,
}

pub ghost struct FeedbackEntryV {
    pub element: Seq<char>,
    pub user_text: Seq<char>,
    pub timestamp: int,
}

impl DeepView for FeedbackEntry {
    type V = FeedbackEntryV;

    open spec fn deep_view(&self) -> FeedbackEntryV {
        FeedbackEntryV {
            element: self.element.deep_view(),
            user_text: self.user_text.deep_view(),
            timestamp: self.timestamp as int,
        }
    }
}

/// What stops a chart computation: a missing birth field, or a request that
/// no body can answer (a geocentric position of Earth itself).
#[derive(Debug, Clone, Copy, PartialEq, Eq, Structural)]
pub enum AstroError {
    /// A required optional field of `BirthData` is absent.
    MissingField,
    /// The request is outside the engine's domain.
    InvalidArgument,
}

impl Clone for TarotCard {
    fn clone(&self) -> (r: Self)
        ensures
            r.deep_view() == self.deep_view(),
    {
        let r = TarotCard {
            id: self.id.clone(),
            name: self.name.clone(),
            number: self.number,
            arcana: self.arcana.clone(),
            suit: clone_opt_string(&self.suit),
            keywords_upright: clone_string_vec(&self.keywords_upright),
            keywords_reversed: clone_string_vec(&self.keywords_reversed),
            meaning_upright: self.meaning_upright.clone(),
            meaning_reversed: self.meaning_reversed.clone(),
            description: self.description.clone(),
            element: self.element.clone(),
            planet: clone_opt_string(&self.planet),
            zodiac: clone_opt_string(&self.zodiac),
            numerology: self.numerology,
        };
        proof {
            assert(r.deep_view() =~= self.deep_view());
        }
        r
    }
}

impl Clone for DrawnCard {
    fn clone(&self) -> (r: Self)
        ensures
            r.deep_view() == self.deep_view(),
    {
        DrawnCard {
            card: self.card.clone(),
            reversed: self.reversed,
            position_index: self.position_index,
        }
    }
}

impl Clone for SpreadPosition {
    fn clone(&self) -> (r: Self)
        ensures
            r.deep_view() == self.deep_view(),
    {
        SpreadPosition {
            index: self.index,
            name: self.name.clone(),
            description: self.description.clone(),
        }
    }
}

impl Clone for SpreadDefinition {
    fn clone(&self) -> (r: Self)
        ensures
            r.deep_view() == self.deep_view(),
    {
        let mut positions: Vec<SpreadPosition> = Vec::new();
        let mut i: usize = 0;
        while i < self.positions.len()
            invariant
                i <= self.positions@.len(),
                positions@.len() == i,
                forall|k: int|
                    0 <= k < i ==> positions@[k].deep_view() == self.positions@[k].deep_view(),
            decreases self.positions@.len() - i,
        {
            let p = self.positions[i].clone();
            positions.push(p);
            i += 1;
        }
        proof {
            assert(positions.deep_view() =~= self.positions.deep_view());
        }
        let r = SpreadDefinition {
            id: self.id.clone(),
            name: self.name.clone(),
            description: self.description.clone(),
            positions,
            card_count: self.card_count,
        };
        proof {
            assert(r.deep_view() =~= self.deep_view());
        }
        r
    }
}

/// Clone a vector of strings, keeping its contents.
fn clone_string_vec(v: &Vec<String>) -> (r: Vec<String>)
    ensures
        r.deep_view() == v.deep_view(),
{
    let mut r: Vec<String> = Vec::new();
    let mut i: usize = 0;
    while i < v.len()
        invariant
            i <= v@.len(),
            r@.len() == i,
            forall|k: int| 0 <= k < i ==> r@[k].deep_view() == v@[k].deep_view(),
        decreases v@.len() - i,
    {
        let s = v[i].clone();
        r.push(s);
        i += 1;
    }
    proof {
        assert(r.deep_view() =~= v.deep_view());
    }
    r
}

/// Clone an optional string, keeping its contents.
fn clone_opt_string(v: &Option<String>) -> (r: Option<String>)
    ensures
        r.deep_view() == v.deep_view(),
{
    match v {
        Some(s) => Some(s.clone()),
        None => None,
    }
}


impl Clone for Trigram {
    fn clone(&self) -> (r: Self)
        ensures
            r.deep_view() == self.deep_view(),
    {
        let r = Trigram {
            number: self.number,
            name: self.name.clone(),
            english_name: self.english_name.clone(),
            character: self.character.clone(),
            binary: self.binary.clone(),
            lines: clone_u8_vec(&self.lines),
            attribute: self.attribute.clone(),
            image: self.image.clone(),
            family: self.family.clone(),
            element: self.element.clone(),
            direction: self.direction.clone(),
            body_part: self.body_part.clone(),
        };
        proof {
            assert(r.deep_view() =~= self.deep_view());
        }
        r
    }
}

impl Clone for HexagramLine {
    fn clone(&self) -> (r: Self)
        ensures
            r.deep_view() == self.deep_view(),
    {
        HexagramLine {
            position: self.position,
            text: self.text.clone(),
            meaning: self.meaning.clone(),
        }
    }
}

impl Clone for Hexagram {
    fn clone(&self) -> (r: Self)
        ensures
            r.deep_view() == self.deep_view(),
    {
        let mut lines: Vec<HexagramLine> = Vec::new();
        let mut i: usize = 0;
        while i < self.lines.len()
            invariant
                i <= self.lines@.len(),
                lines@.len() == i,
                forall|k: int| 0 <= k < i ==> lines@[k].deep_view() == self.lines@[k].deep_view(),
            decreases self.lines@.len() - i,
        {
            let l = self.lines[i].clone();
            lines.push(l);
            i += 1;
        }
        let r = Hexagram {
            number: self.number,
            name: self.name.clone(),
            english_name: self.english_name.clone(),
            character: self.character.clone(),
            binary: self.binary.clone(),
            top_trigram: self.top_trigram,
            bottom_trigram: self.bottom_trigram,
            judgment: self.judgment.clone(),
            image: self.image.clone(),
            lines,
            keywords: clone_string_vec(&self.keywords),
            description: self.description.clone(),
        };
        proof {
            assert(r.lines.deep_view() =~= self.lines.deep_view());
            assert(r.deep_view() =~= self.deep_view());
        }
        r
    }
}

impl Clone for CastResult {
    fn clone(&self) -> (r: Self)
        ensures
            r.deep_view() == self.deep_view(),
    {
        let r = CastResult {
            lines: clone_u8_vec(&self.lines),
            changing_lines: clone_usize_vec(&self.changing_lines),
            hexagram_number: self.hexagram_number,
            transformed_hexagram_number: self.transformed_hexagram_number,
            binary: self.binary.clone(),
            transformed_binary: clone_opt_string(&self.transformed_binary),
        };
        proof {
            assert(r.deep_view() =~= self.deep_view());
        }
        r
    }
}

impl Clone for BirthData {
    fn clone(&self) -> (r: Self)
        ensures
            r == *self,
    {
        BirthData {
            year: self.year,
            month: self.month,
            day: self.day,
            hour: self.hour,
            minute: self.minute,
            latitude: self.latitude,
            longitude: self.longitude,
            timezone: self.timezone,
        }
    }
}

impl Clone for SignPosition {
    fn clone(&self) -> (r: Self)
        ensures
            r.deep_view() == self.deep_view(),
    {
        SignPosition {
            sign: self.sign.clone(),
            degrees: self.degrees,
            total_degrees: self.total_degrees,
        }
    }
}

impl Clone for PlanetPosition {
    fn clone(&self) -> (r: Self)
        ensures
            r.deep_view() == self.deep_view(),
    {
        PlanetPosition {
            planet: self.planet.clone(),
            sign: self.sign.clone(),
            degrees: self.degrees,
            total_degrees: self.total_degrees,
            house: self.house,
            retrograde: self.retrograde,
        }
    }
}

impl Clone for ChartAspect {
    fn clone(&self) -> (r: Self)
        ensures
            r.deep_view() == self.deep_view(),
    {
        ChartAspect {
            planet1: self.planet1.clone(),
            planet2: self.planet2.clone(),
            aspect_name: self.aspect_name.clone(),
            aspect_symbol: self.aspect_symbol.clone(),
            exact_degrees: self.exact_degrees,
            actual_degrees: self.actual_degrees,
            orb: self.orb,
            nature: self.nature.clone(),
        }
    }
}

impl Clone for NatalChart {
    fn clone(&self) -> (r: Self)
        ensures
            r.sun.deep_view() == self.sun.deep_view(),
            r.moon.deep_view() == self.moon.deep_view(),
            r.mercury.deep_view() == self.mercury.deep_view(),
            r.venus.deep_view() == self.venus.deep_view(),
            r.mars.deep_view() == self.mars.deep_view(),
            r.jupiter.deep_view() == self.jupiter.deep_view(),
            r.saturn.deep_view() == self.saturn.deep_view(),
            r.uranus.deep_view() == self.uranus.deep_view(),
            r.neptune.deep_view() == self.neptune.deep_view(),
            r.pluto.deep_view() == self.pluto.deep_view(),
            r.ascendant.deep_view() == self.ascendant.deep_view(),
            r.midheaven.deep_view() == self.midheaven.deep_view(),
            r.aspects.deep_view() == self.aspects.deep_view(),
            r.house_cusps@ == self.house_cusps@,
    {
        let mut aspects: Vec<ChartAspect> = Vec::new();
        let mut i: usize = 0;
        while i < self.aspects.len()
            invariant
                i <= self.aspects@.len(),
                aspects@.len() == i,
                forall|k: int|
                    0 <= k < i ==> aspects@[k].deep_view() == self.aspects@[k].deep_view(),
            decreases self.aspects@.len() - i,
        {
            let a = self.aspects[i].clone();
            aspects.push(a);
            i += 1;
        }
        let mut house_cusps: Vec<u32> = Vec::new();
        let mut j: usize = 0;
        while j < self.house_cusps.len()
            invariant
                j <= self.house_cusps@.len(),
                house_cusps@.len() == j,
                forall|k: int| 0 <= k < j ==> house_cusps@[k] == self.house_cusps@[k],
            decreases self.house_cusps@.len() - j,
        {
            let c = self.house_cusps[j];
            house_cusps.push(c);
            j += 1;
        }
        let r = NatalChart {
            sun: self.sun.clone(),
            moon: self.moon.clone(),
            mercury: self.mercury.clone(),
            venus: self.venus.clone(),
            mars: self.mars.clone(),
            jupiter: self.jupiter.clone(),
            saturn: self.saturn.clone(),
            uranus: self.uranus.clone(),
            neptune: self.neptune.clone(),
            pluto: self.pluto.clone(),
            ascendant: self.ascendant.clone(),
            midheaven: self.midheaven.clone(),
            aspects,
            house_cusps,
        };
        proof {
            assert(r.aspects.deep_view() =~= self.aspects.deep_view());
            assert(r.house_cusps@ =~= self.house_cusps@);
        }
        r
    }
}

impl Clone for FeedbackEntry {
    fn clone(&self) -> (r: Self)
        ensures
            r.deep_view() == self.deep_view(),
    {
        FeedbackEntry {
            element: self.element.clone(),
            user_text: self.user_text.clone(),
            timestamp: self.timestamp,
        }
    }
}

/// Clone a vector of bytes, keeping its contents.
fn clone_u8_vec(v: &Vec<u8>) -> (r: Vec<u8>)
    ensures
        r@ == v@,
{
    let mut r: Vec<u8> = Vec::new();
    let mut i: usize = 0;
    while i < v.len()
        invariant
            i <= v@.len(),
            r@.len() == i,
            forall|k: int| 0 <= k < i ==> r@[k] == v@[k],
        decreases v@.len() - i,
    {
        let x = v[i];
        r.push(x);
        i += 1;
    }
    proof {
        assert(r@ =~= v@);
    }
    r
}

/// Clone a vector of indexes, keeping its contents.
fn clone_usize_vec(v: &Vec<usize>) -> (r: Vec<usize>)
    ensures
        r@ == v@,
{
    let mut r: Vec<usize> = Vec::new();
    let mut i: usize = 0;
    while i < v.len()
        invariant
            i <= v@.len(),
            r@.len() == i,
            forall|k: int| 0 <= k < i ==> r@[k] == v@[k],
        decreases v@.len() - i,
    {
        let x = v[i];
        r.push(x);
        i += 1;
    }
    proof {
        assert(r@ =~= v@);
    }
    r
}

} // verus!
