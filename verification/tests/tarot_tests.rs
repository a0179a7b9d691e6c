use mysticism::{create_deck, draw_cards, filter_cards, get_card, shuffle_deck, TarotEngine};

#[test]
fn deck_has_78_cards() {
    let deck = create_deck();
    assert_eq!(deck.len(), 78);
}

#[test]
fn integration_tests_deck_has_78_cards() {
    let deck = create_deck();
    assert_eq!(deck.len(), 78);
}

#[test]
fn shuffle_changes_order() {
    let mut deck = create_deck();
    let original_first = deck[0].id.clone();
    // Shuffle many times — statistically the first card should change
    let mut changed = false;
    for _ in 0..20 {
        shuffle_deck(&mut deck);
        if deck[0].id != original_first {
            changed = true;
            break;
        }
    }
    assert!(changed, "Shuffle should change deck order");
}

#[test]
fn shuffle_keeps_the_same_cards() {
    let mut deck = create_deck();
    let mut ids: Vec<String> = deck.iter().map(|c| c.id.clone()).collect();
    shuffle_deck(&mut deck);
    let mut shuffled_ids: Vec<String> = deck.iter().map(|c| c.id.clone()).collect();
    ids.sort();
    shuffled_ids.sort();
    assert_eq!(ids, shuffled_ids);
}

#[test]
fn draw_respects_count() {
    let deck = create_deck();
    let drawn = draw_cards(&deck, 3, false).unwrap();
    assert_eq!(drawn.len(), 3);
}

#[test]
fn draw_too_many_errors() {
    let deck = create_deck();
    let result = draw_cards(&deck, 100, false);
    assert!(result.is_err());
}

#[test]
fn draw_without_reversals_is_upright() {
    let deck = create_deck();
    let drawn = draw_cards(&deck, 10, false).unwrap();
    for (i, d) in drawn.iter().enumerate() {
        assert!(!d.reversed);
        assert_eq!(d.position_index, i);
        assert_eq!(d.card.id, deck[i].id);
    }
}

#[test]
fn filter_major_arcana() {
    let deck = create_deck();
    let major = filter_cards(&deck, Some("major"), None);
    assert_eq!(major.len(), 22);
}

#[test]
fn filter_by_suit() {
    let deck = create_deck();
    let wands = filter_cards(&deck, Some("minor"), Some("wands"));
    assert_eq!(wands.len(), 14);
}

#[test]
fn filter_keeps_deck_order() {
    let deck = create_deck();
    let cups = filter_cards(&deck, None, Some("cups"));
    assert_eq!(cups.len(), 14);
    for (i, c) in cups.iter().enumerate() {
        assert_eq!(c.number, i as i32 + 1);
        assert_eq!(c.suit.as_deref(), Some("cups"));
    }
}

#[test]
fn get_card_finds_the_fool() {
    let deck = create_deck();
    let fool = get_card(&deck, "major_00_fool").unwrap();
    assert_eq!(fool.name, "The Fool");
    assert_eq!(fool.arcana, "major");
    assert!(get_card(&deck, "no_such_card").is_none());
}

#[test]
fn engine_get_spread() {
    let engine = TarotEngine::new();
    let celtic = engine.get_spread("celtic_cross");
    assert!(celtic.is_some());
    assert_eq!(celtic.unwrap().card_count, 10);
}

#[test]
fn draw_and_shuffle() {
    let mut deck = create_deck();
    shuffle_deck(&mut deck);
    let drawn = draw_cards(&deck, 5, true).unwrap();
    assert_eq!(drawn.len(), 5);
}

#[test]
fn tarot_engine_spreads() {
    let engine = TarotEngine::new();
    let spreads = engine.get_spreads();
    assert!(!spreads.is_empty(), "Should have at least one spread");
    let celtic = engine.get_spread("celtic_cross").expect("Celtic Cross spread should exist");
    assert_eq!(celtic.card_count, 10);
}

#[test]
fn spread_counts_match_positions() {
    let engine = TarotEngine::new();
    for s in engine.get_spreads() {
        assert_eq!(s.card_count, s.positions.len());
        for (i, p) in s.positions.iter().enumerate() {
            assert_eq!(p.index, i);
        }
    }
}

#[test]
fn engine_deck_matches_free_deck() {
    let engine = TarotEngine::new();
    let deck = engine.create_deck();
    assert_eq!(deck.len(), 78);
    let major = engine.filter_cards(Some("major"), None);
    assert_eq!(major.len(), 22);
    let fool = engine.get_card("major_00_fool").unwrap();
    assert_eq!(fool.number, 0);
}
