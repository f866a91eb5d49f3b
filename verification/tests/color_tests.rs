use glitchtip_relay::color::hash_to_color;

const PALETTE: &[(&str, &str)] = &[
    ("red-50", "red"),
    ("orange-50", "orange"),
    ("yellow-50", "yellow"),
    ("green-50", "green"),
    ("blue-50", "blue"),
    ("purple-50", "purple"),
    ("carmine-50", "carmine"),
    ("violet-50", "violet"),
    ("indigo-50", "indigo"),
    ("wathet-50", "wathet"),
    ("turquoise-50", "turquoise"),
    ("lime-50", "lime"),
];

#[test]
fn color_is_deterministic_across_calls() {
    for input in ["", "backend", "production", "host-1", "日本語", "a b c"] {
        let first = hash_to_color(input);
        let second = hash_to_color(input);
        assert_eq!(first, second);
    }
}

#[test]
fn color_of_empty_string_is_stable_and_from_palette() {
    let pair = hash_to_color("");
    let again = hash_to_color("");
    assert_eq!(pair, again);
    assert!(PALETTE.iter().any(|(bg, fg)| *bg == pair.0 && *fg == pair.1));
}

#[test]
fn color_pairs_come_from_the_palette() {
    for input in ["api", "staging", "prod", "x", "yy", "zzz", "long-input-string", "1"] {
        let (bg, fg) = hash_to_color(input);
        let index = PALETTE.iter().position(|(b, f)| *b == bg && *f == fg);
        assert!(index.is_some(), "pair ({bg}, {fg}) not in palette");
    }
}

#[test]
fn background_and_foreground_agree() {
    // The two halves of the pair always come from the same palette entry.
    for input in ["alpha", "beta", "gamma", "delta", "1"] {
        let (bg, fg) = hash_to_color(input);
        assert_eq!(bg, format!("{fg}-50"));
    }
}

#[test]
fn every_palette_entry_is_reachable_and_consistent() {
    // Sweep inputs until every one of the twelve entries has been produced,
    // checking each derived pair against the table entry it claims.
    let mut seen = [false; 12];
    for n in 0..10_000u32 {
        let input = n.to_string();
        let (bg, fg) = hash_to_color(&input);
        let index = PALETTE
            .iter()
            .position(|(b, f)| *b == bg && *f == fg)
            .unwrap_or_else(|| panic!("pair ({bg}, {fg}) not in palette for input {input:?}"));
        assert_eq!(bg, format!("{fg}-50"));
        seen[index] = true;
        if seen.iter().all(|s| *s) {
            return;
        }
    }
    panic!("not every palette entry was reached: {seen:?}");
}
