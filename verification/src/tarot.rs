//! The tarot engine: deck construction, shuffling, drawing, lookup and
//! filtering, plus the `TarotEngine` wrapper that keeps a master deck and
//! the spread layouts.

use vstd::prelude::*;

use rand::seq::SliceRandom;

use crate::random::random_bool;
use crate::strutil::string_eq_str;
use crate::tarot_data::{all_spreads, deck_wf, major_card, minor_card, spread_wf};
use crate::types::{DrawnCard, SpreadDefinition, SpreadDefinitionV, TarotCard, TarotCardV};

verus! {

/// Create a fresh 78-card deck: the 22 trumps, then each suit ace to king.
pub fn create_deck() -> (r: Vec<TarotCard>)
    ensures
        deck_wf(r.deep_view()),
{
    let mut deck: Vec<TarotCard> = Vec::new();
    let mut n: usize = 0;
    while n < 22
        invariant
            n <= 22,
            deck@.len() == n,
            forall|i: int|
                0 <= i < n ==> crate::tarot_data::is_major_card((#[trigger] deck@[i]).deep_view(), i),
        decreases 22 - n,
    {
        let c = major_card(n);
        deck.push(c);
        n += 1;
    }
    let mut s: usize = 0;
    while s < 4
        invariant
            s <= 4,
            deck@.len() == 22 + 14 * s,
            forall|i: int|
                0 <= i < 22 ==> crate::tarot_data::is_major_card((#[trigger] deck@[i]).deep_view(), i),
            forall|i: int|
                22 <= i < deck@.len() ==> crate::tarot_data::is_minor_card(
                    (#[trigger] deck@[i]).deep_view(),
                    (i - 22) / 14,
                    (i - 22) % 14 + 1,
                ),
        decreases 4 - s,
    {
        let mut rank: usize = 1;
        while rank <= 14
            invariant
                s < 4,
                1 <= rank <= 15,
                deck@.len() == 22 + 14 * s + (rank - 1),
                forall|i: int|
                    0 <= i < 22 ==> crate::tarot_data::is_major_card(
                        (#[trigger] deck@[i]).deep_view(),
                        i,
                    ),
                forall|i: int|
                    22 <= i < deck@.len() ==> crate::tarot_data::is_minor_card(
                        (#[trigger] deck@[i]).deep_view(),
                        (i - 22) / 14,
                        (i - 22) % 14 + 1,
                    ),
            decreases 15 - rank,
        {
            let c = minor_card(s, rank);
            proof {
                let p = deck@.len() as int;
                assert((p - 22) / 14 == s && (p - 22) % 14 + 1 == rank) by (nonlinear_arith)
                    requires
                        p == 22 + 14 * (s as int) + (rank as int) - 1,
                        0 <= s < 4,
                        1 <= rank <= 14,
                ;
            }
            deck.push(c);
            rank += 1;
        }
        s += 1;
    }
    proof {
        assert(forall|i: int|
            0 <= i < deck@.len() ==> #[trigger] deck.deep_view()[i] == deck@[i].deep_view());
    }
    deck
}

/// Shuffle a deck in place with the Fisher-Yates walk of `rand`.
///
/// Relies on `rand::seq::SliceRandom::shuffle` (with `rand::thread_rng` as
/// its source), which permutes the slice in place by swaps: the cards are
/// rearranged, never altered, added or dropped. Which order comes out is
/// up to the generator, so nothing more is promised.
#[verifier::external_body]
pub fn shuffle_deck(cards: &mut Vec<TarotCard>)
    ensures
        final(cards)@.len() == old(cards)@.len(),
        final(cards)@.to_multiset() == old(cards)@.to_multiset(),
{
    let mut rng = rand::thread_rng();
    cards.shuffle(&mut rng);
}

/// Draw `count` cards from the top of the deck, in deck order.
///
/// With `allow_reversals`, each drawn card is reversed or not by a fair
/// coin; otherwise every card is upright. Fails exactly when the deck has
/// fewer than `count` cards.
pub fn draw_cards(deck: &[TarotCard], count: usize, allow_reversals: bool) -> (r: Result<
    Vec<DrawnCard>,
    String,
>)
    ensures
        r is Err <==> count > deck@.len(),
        r matches Ok(drawn) ==> {
            &&& drawn.deep_view().len() == count
            &&& forall|i: int|
                0 <= i < count ==> (#[trigger] drawn.deep_view()[i]).card == deck.deep_view()[i]
            &&& forall|i: int| 0 <= i < count ==> (#[trigger] drawn.deep_view()[i]).position_index == i
            &&& !allow_reversals ==> forall|i: int|
                0 <= i < count ==> (#[trigger] drawn.deep_view()[i]).reversed == false
        },
{
    if count > deck.len() {
        let mut msg = String::from_str("Cannot draw ");
        msg.append(count.to_string().as_str());
        msg.append(" cards from a deck of ");
        msg.append(deck.len().to_string().as_str());
        return Err(msg);
    }

    let mut drawn: Vec<DrawnCard> = Vec::new();
    let mut i: usize = 0;
    while i < count
        invariant
            count <= deck@.len(),
            i <= count,
            drawn@.len() == i,
            forall|k: int|
                0 <= k < i ==> (#[trigger] drawn@[k]).deep_view().card == deck@[k].deep_view(),
            forall|k: int| 0 <= k < i ==> (#[trigger] drawn@[k]).deep_view().position_index == k,
            !allow_reversals ==> forall|k: int|
                0 <= k < i ==> (#[trigger] drawn@[k]).deep_view().reversed == false,
        decreases count - i,
    {
        let reversed = if allow_reversals {
            random_bool()
        } else {
            false
        };
        let card = deck[i].clone();
        drawn.push(DrawnCard { card, reversed, position_index: i });
        i += 1;
    }
    proof {
        assert(forall|k: int|
            0 <= k < drawn@.len() ==> #[trigger] drawn.deep_view()[k] == drawn@[k].deep_view());
        assert(forall|k: int|
            0 <= k < deck@.len() ==> #[trigger] deck.deep_view()[k] == deck@[k].deep_view());
    }
    Ok(drawn)
}

/// The first card of the deck carrying the given id, if any.
pub fn get_card(deck: &[TarotCard], id: &str) -> (r: Option<TarotCard>)
    ensures
        r is None <==> forall|k: int|
            0 <= k < deck@.len() ==> (#[trigger] deck.deep_view()[k]).id != id@,
        r matches Some(c) ==> exists|k: int|
            {
                &&& 0 <= k < deck@.len()
                &&& (#[trigger] deck.deep_view()[k]).id == id@
                &&& c.deep_view() == deck.deep_view()[k]
                &&& forall|j: int| 0 <= j < k ==> (#[trigger] deck.deep_view()[j]).id != id@
            },
{
    let n = deck.len();
    let mut i: usize = 0;
    while i < n
        invariant
            n == deck@.len(),
            i <= n,
            forall|j: int| 0 <= j < i ==> (#[trigger] deck.deep_view()[j]).id != id@,
            forall|j: int|
                0 <= j < deck@.len() ==> #[trigger] deck.deep_view()[j] == deck@[j].deep_view(),
        decreases n - i,
    {
        if string_eq_str(&deck[i].id, id) {
            let c = deck[i].clone();
            proof {
                assert(deck.deep_view()[i as int] == deck@[i as int].deep_view());
                assert((#[trigger] deck.deep_view()[i as int]).id == id@
                    && c.deep_view() == deck.deep_view()[i as int]);
            }
            return Some(c);
        }
        i += 1;
    }
    None
}

/// Whether a card passes the optional arcana and suit filters.
pub open spec fn card_passes(c: TarotCardV, arcana: Option<Seq<char>>, suit: Option<Seq<char>>) -> bool {
    &&& (arcana matches Some(a) ==> c.arcana == a)
    &&& (suit matches Some(s) ==> c.suit == Some(s))
}

/// The subsequence of cards that pass both filters, in order.
pub open spec fn filtered_cards(
    d: Seq<TarotCardV>,
    arcana: Option<Seq<char>>,
    suit: Option<Seq<char>>,
) -> Seq<TarotCardV>
    decreases d.len(),
{
    if d.len() == 0 {
        Seq::empty()
    } else {
        let rest = filtered_cards(d.drop_last(), arcana, suit);
        if card_passes(d.last(), arcana, suit) {
            rest.push(d.last())
        } else {
            rest
        }
    }
}

/// The cards that pass both filters, in deck order. A card with no suit is
/// kept only when no suit filter is given.
pub fn filter_cards(deck: &[TarotCard], arcana: Option<&str>, suit: Option<&str>) -> (r: Vec<
    TarotCard,
>)
    ensures
        r.deep_view() == filtered_cards(deck.deep_view(), arcana.deep_view(), suit.deep_view()),
{
    let ghost fa = arcana.deep_view();
    let ghost fs = suit.deep_view();
    let n = deck.len();
    let mut r: Vec<TarotCard> = Vec::new();
    let mut i: usize = 0;
    while i < n
        invariant
            fa == arcana.deep_view(),
            fs == suit.deep_view(),
            n == deck@.len(),
            i <= n,
            r.deep_view() == filtered_cards(deck.deep_view().subrange(0, i as int), fa, fs),
        decreases n - i,
    {
        let c = &deck[i];
        let arcana_ok = match arcana {
            Some(a) => string_eq_str(&c.arcana, a),
            None => true,
        };
        let suit_ok = match suit {
            Some(s) => match &c.suit {
                Some(cs) => string_eq_str(cs, s),
                None => false,
            },
            None => true,
        };
        let keep = arcana_ok && suit_ok;
        proof {
            let dv = deck@[i as int].deep_view();
            assert(deck.deep_view()[i as int] == dv);
            match arcana {
                Some(a) => {
                    assert(fa == Some(a@));
                    assert(arcana_ok == (dv.arcana == a@));
                    assert((fa matches Some(x) ==> dv.arcana == x) == arcana_ok);
                },
                None => {
                    assert(fa is None);
                    assert(arcana_ok);
                    assert((fa matches Some(x) ==> dv.arcana == x) == arcana_ok);
                },
            }
            match suit {
                Some(s0) => {
                    assert(fs == Some(s0@));
                    assert(suit_ok == (dv.suit == Some(s0@)));
                    assert((fs matches Some(x) ==> dv.suit == Some(x)) == suit_ok);
                },
                None => {
                    assert(fs is None);
                    assert(suit_ok);
                    assert((fs matches Some(x) ==> dv.suit == Some(x)) == suit_ok);
                },
            }
            assert(keep == card_passes(dv, fa, fs));
            assert(deck.deep_view().subrange(0, i + 1).drop_last() =~= deck.deep_view().subrange(
                0,
                i as int,
            ));
            assert(deck.deep_view().subrange(0, i + 1).last() == deck.deep_view()[i as int]);
        }
        if keep {
            let kept = c.clone();
            r.push(kept);
        }
        i += 1;
        proof {
            assert(r.deep_view() =~= filtered_cards(
                deck.deep_view().subrange(0, i as int),
                fa,
                fs,
            ));
        }
    }
    proof {
        assert(deck.deep_view().subrange(0, n as int) =~= deck.deep_view());
    }
    r
}

// ---------------------------------------------------------------------------
// TarotEngine — stateful wrapper
// ---------------------------------------------------------------------------

/// A tarot engine holding the master deck and the spread layouts.
pub struct TarotEngine {
    deck: Vec<TarotCard>,
    spreads: Vec<SpreadDefinition>,
}

impl TarotEngine {
    /// The master deck, abstractly.
    pub closed spec fn deck_view(&self) -> Seq<TarotCardV> {
        self.deck.deep_view()
    }

    /// The spread table, abstractly.
    pub closed spec fn spreads_view(&self) -> Seq<SpreadDefinitionV> {
        self.spreads.deep_view()
    }

    /// A fresh engine: a full deck and the built-in spreads.
    pub fn new() -> (r: Self)
        ensures
            deck_wf(r.deck_view()),
            forall|i: int| 0 <= i < r.spreads_view().len() ==> spread_wf(#[trigger] r.spreads_view()[i]),
            r.spreads_view().len() == 3,
            r.spreads_view()[2].id == "celtic_cross"@ && r.spreads_view()[2].card_count == 10,
    {
        TarotEngine { deck: create_deck(), spreads: all_spreads() }
    }

    /// A copy of the master deck.
    pub fn create_deck(&self) -> (r: Vec<TarotCard>)
        ensures
            r.deep_view() == self.deck_view(),
    {
        let mut r: Vec<TarotCard> = Vec::new();
        let mut i: usize = 0;
        while i < self.deck.len()
            invariant
                i <= self.deck@.len(),
                r@.len() == i,
                forall|k: int| 0 <= k < i ==> r@[k].deep_view() == self.deck@[k].deep_view(),
            decreases self.deck@.len() - i,
        {
            let c = self.deck[i].clone();
            r.push(c);
            i += 1;
        }
        proof {
            assert(r.deep_view() =~= self.deck.deep_view());
        }
        r
    }

    /// Shuffle a deck in place.
    pub fn shuffle_deck(&self, cards: &mut Vec<TarotCard>)
        ensures
            final(cards)@.len() == old(cards)@.len(),
            final(cards)@.to_multiset() == old(cards)@.to_multiset(),
    {
        shuffle_deck(cards);
    }

    /// Draw `count` cards from the given deck.
    pub fn draw_cards(&self, deck: &[TarotCard], count: usize, allow_reversals: bool) -> (r: Result<
        Vec<DrawnCard>,
        String,
    >)
        ensures
            r is Err <==> count > deck@.len(),
            r matches Ok(drawn) ==> {
                &&& drawn.deep_view().len() == count
                &&& forall|i: int|
                    0 <= i < count ==> (#[trigger] drawn.deep_view()[i]).card == deck.deep_view()[i]
                &&& forall|i: int|
                    0 <= i < count ==> (#[trigger] drawn.deep_view()[i]).position_index == i
                &&& !allow_reversals ==> forall|i: int|
                    0 <= i < count ==> (#[trigger] drawn.deep_view()[i]).reversed == false
            },
    {
        draw_cards(deck, count, allow_reversals)
    }

    /// Look up a card by id in the master deck.
    pub fn get_card(&self, id: &str) -> (r: Option<TarotCard>)
        ensures
            r is None <==> forall|k: int|
                0 <= k < self.deck_view().len() ==> (#[trigger] self.deck_view()[k]).id != id@,
            r matches Some(c) ==> exists|k: int|
                {
                    &&& 0 <= k < self.deck_view().len()
                    &&& (#[trigger] self.deck_view()[k]).id == id@
                    &&& c.deep_view() == self.deck_view()[k]
                    &&& forall|j: int| 0 <= j < k ==> (#[trigger] self.deck_view()[j]).id != id@
                },
    {
        get_card(self.deck.as_slice(), id)
    }

    /// Filter the master deck by arcana and/or suit.
    pub fn filter_cards(&self, arcana: Option<&str>, suit: Option<&str>) -> (r: Vec<TarotCard>)
        ensures
            r.deep_view() == filtered_cards(self.deck_view(), arcana.deep_view(), suit.deep_view()),
    {
        proof {
            assert(self.deck_view() == self.deck.deep_view());
        }
        filter_cards(self.deck.as_slice(), arcana, suit)
    }

    /// All spread layouts.
    pub fn get_spreads(&self) -> (r: &[SpreadDefinition])
        ensures
            r.deep_view() == self.spreads_view(),
    {
        self.spreads.as_slice()
    }

    /// The first spread with the given id, if any.
    pub fn get_spread(&self, id: &str) -> (r: Option<&SpreadDefinition>)
        ensures
            r is None <==> forall|k: int|
                0 <= k < self.spreads_view().len() ==> (#[trigger] self.spreads_view()[k]).id
                    != id@,
            r matches Some(s) ==> exists|k: int|
                {
                    &&& 0 <= k < self.spreads_view().len()
                    &&& (#[trigger] self.spreads_view()[k]).id == id@
                    &&& s.deep_view() == self.spreads_view()[k]
                    &&& forall|j: int| 0 <= j < k ==> (#[trigger] self.spreads_view()[j]).id != id@
                },
    {
        proof {
            assert(self.spreads_view() == self.spreads.deep_view());
        }
        let n = self.spreads.len();
        let mut i: usize = 0;
        while i < n
            invariant
                self.spreads_view() == self.spreads.deep_view(),
                n == self.spreads@.len(),
                i <= n,
                forall|j: int|
                    0 <= j < i ==> (#[trigger] self.spreads.deep_view()[j]).id != id@,
                forall|j: int|
                    0 <= j < self.spreads@.len() ==> #[trigger] self.spreads.deep_view()[j]
                        == self.spreads@[j].deep_view(),
            decreases n - i,
        {
            if string_eq_str(&self.spreads[i].id, id) {
                let s = &self.spreads[i];
                proof {
                    assert(self.spreads.deep_view()[i as int]
                        == self.spreads@[i as int].deep_view());
                    assert((#[trigger] self.spreads.deep_view()[i as int]).id == id@
                        && s.deep_view() == self.spreads.deep_view()[i as int]);
                }
                return Some(s);
            }
            i += 1;
        }
        None
    }
}

impl Default for TarotEngine {
    /// A fresh engine, as `new` builds it.
    fn default() -> (r: Self)
        ensures
            deck_wf(r.deck_view()),
    {
        TarotEngine::new()
    }
}

} // verus!
