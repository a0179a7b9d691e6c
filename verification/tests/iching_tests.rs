use mysticism::{all_hexagrams, all_trigrams, IChingEngine};
use mysticism::{binary_to_hexagram_number, cast_hexagram, get_hexagram, get_trigram};
use mysticism::{get_lower_trigram, get_upper_trigram};

#[test]
fn loads_64_hexagrams() {
    let hexagrams = all_hexagrams();
    assert_eq!(hexagrams.len(), 64);
}

#[test]
fn loads_8_trigrams() {
    let trigrams = all_trigrams();
    assert_eq!(trigrams.len(), 8);
}

#[test]
fn iching_cast_hexagram_produces_valid_result() {
    let result = cast_hexagram();
    assert_eq!(result.lines.len(), 6);
    for &line in &result.lines {
        assert!(
            line == 6 || line == 7 || line == 8 || line == 9,
            "Line value must be 6, 7, 8, or 9 — got {}",
            line
        );
    }
    assert!(
        (1..=64).contains(&result.hexagram_number),
        "Hexagram number must be 1-64"
    );
    assert_eq!(result.binary.len(), 6);
}

#[test]
fn integration_tests_cast_hexagram_produces_valid_result() {
    let result = cast_hexagram();
    assert_eq!(result.lines.len(), 6);
    for &line in &result.lines {
        assert!(
            [6, 7, 8, 9].contains(&line),
            "Line value must be 6, 7, 8, or 9 — got {}",
            line
        );
    }
    assert!(
        (1..=64).contains(&result.hexagram_number),
        "Hexagram number must be 1-64, got {}",
        result.hexagram_number
    );
    assert_eq!(result.binary.len(), 6);
}

#[test]
fn hexagram_1_is_qian() {
    let hex = get_hexagram(1).unwrap();
    assert_eq!(hex.name, "Qian");
    assert_eq!(hex.binary, "111111");
}

#[test]
fn trigram_1_is_qian() {
    let tri = get_trigram(1).unwrap();
    assert_eq!(tri.name, "Qian");
    assert_eq!(tri.binary, "111");
}

#[test]
fn binary_lookup() {
    let n = binary_to_hexagram_number("000000").unwrap();
    assert_eq!(n, 2); // Kun / The Receptive
}

#[test]
fn engine_cast_hexagram() {
    let engine = IChingEngine::new();
    let result = engine.cast_hexagram();
    assert_eq!(result.lines.len(), 6);
    assert!((1..=64).contains(&result.hexagram_number));
}

#[test]
fn hexagram_lookup() {
    let hex = get_hexagram(1).unwrap();
    assert_eq!(hex.name, "Qian");
    assert_eq!(hex.english_name, "The Creative");
}

#[test]
fn iching_engine_trigrams() {
    let engine = IChingEngine::new();
    let hex = engine.get_hexagram(1).expect("Hexagram 1 should exist");
    let upper = engine.get_upper_trigram(hex).expect("Upper trigram should exist");
    let lower = engine.get_lower_trigram(hex).expect("Lower trigram should exist");
    // Hexagram 1 (Qian) is heaven over heaven.
    assert_eq!(upper.name, "Qian");
    assert_eq!(lower.name, "Qian");
}

#[test]
fn hexagram_number_out_of_range_errors() {
    assert!(get_hexagram(0).is_err());
    assert!(get_hexagram(65).is_err());
    let msg = get_hexagram(65).unwrap_err();
    assert!(msg.contains("65"));
}

#[test]
fn trigram_number_out_of_range_errors() {
    assert!(get_trigram(0).is_err());
    assert!(get_trigram(9).is_err());
}

#[test]
fn binary_lookup_rejects_unknown_patterns() {
    assert!(binary_to_hexagram_number("00000").is_err());
    assert!(binary_to_hexagram_number("0000002").is_err());
    assert!(binary_to_hexagram_number("01a010").is_err());
}

#[test]
fn binary_lookup_inverts_hexagram_table() {
    // Every hexagram's pattern looks up to its own number.
    for h in all_hexagrams() {
        let n = binary_to_hexagram_number(&h.binary).unwrap();
        assert_eq!(n, h.number);
    }
}

#[test]
fn hexagram_binaries_are_distinct() {
    let hexagrams = all_hexagrams();
    for i in 0..hexagrams.len() {
        for j in (i + 1)..hexagrams.len() {
            assert_ne!(hexagrams[i].binary, hexagrams[j].binary);
        }
    }
}

#[test]
fn hexagram_trigrams_match_binary() {
    // Each hexagram's trigram parts carry its own line patterns.
    let engine = IChingEngine::new();
    for h in all_hexagrams() {
        let lower = engine.get_lower_trigram(&h).unwrap();
        let upper = engine.get_upper_trigram(&h).unwrap();
        assert_eq!(h.binary[0..3], lower.binary);
        assert_eq!(h.binary[3..6], upper.binary);
    }
}

#[test]
fn cast_changing_lines_are_old_lines() {
    for _ in 0..40 {
        let r = cast_hexagram();
        for (i, &v) in r.lines.iter().enumerate() {
            let changing = v == 6 || v == 9;
            assert_eq!(changing, r.changing_lines.contains(&(i + 1)));
        }
        if r.changing_lines.is_empty() {
            assert!(r.transformed_hexagram_number.is_none());
            assert!(r.transformed_binary.is_none());
        } else {
            let tb = r.transformed_binary.clone().unwrap();
            let tn = r.transformed_hexagram_number.unwrap();
            assert_eq!(binary_to_hexagram_number(&tb).unwrap(), tn);
        }
        // The cast pattern always names its own hexagram.
        assert_eq!(binary_to_hexagram_number(&r.binary).unwrap(), r.hexagram_number);
    }
}

#[test]
fn lower_and_upper_trigram_of_known_hexagram() {
    // Hexagram 11 (Tai, Peace) is heaven below, earth above.
    let hex = get_hexagram(11).unwrap();
    let lower = get_lower_trigram(&hex).unwrap();
    let upper = get_upper_trigram(&hex).unwrap();
    assert_eq!(lower.name, "Qian");
    assert_eq!(upper.name, "Kun");
}
