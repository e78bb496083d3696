use jplearnbot::scramble::{scramble, scramble_unique, swap_pool, SCRAMBLE_ATTEMPTS};

fn chars_of(s: &str) -> Vec<char> {
    s.chars().collect()
}

#[test]
fn keeps_character_count() {
    for src in ["ねこ", "たべもの", "がっこう", "カタカナ", "latin"] {
        let out = scramble(src);
        assert_eq!(out.chars().count(), src.chars().count());
    }
}

#[test]
fn output_chars_come_from_swap_pools() {
    let src = "たべものや";
    for _ in 0..50 {
        let out = scramble(src);
        for (a, b) in src.chars().zip(out.chars()) {
            if a != b {
                assert!(swap_pool(a).contains(&b), "{} swapped to {}", a, b);
            }
        }
    }
}

#[test]
fn short_readings_swap_every_eligible_character() {
    let src = "ねこ";
    for _ in 0..50 {
        let out = scramble(src);
        for (a, b) in src.chars().zip(out.chars()) {
            if !swap_pool(a).is_empty() {
                assert_ne!(a, b, "swappable {} was kept", a);
            }
        }
    }
}

#[test]
fn low_swappability_swaps_every_eligible_character() {
    // Only one of five characters is swappable: below the three-fifths
    // threshold, so the whole-swap branch applies.
    let src = "ーーーーか";
    for _ in 0..50 {
        let out = scramble(src);
        let a: Vec<char> = chars_of(src);
        let b: Vec<char> = chars_of(out.as_str());
        assert_eq!(a[0..4], b[0..4]);
        assert_ne!(a[4], b[4]);
    }
}

#[test]
fn unswappable_text_is_unchanged() {
    assert_eq!(scramble("abc"), "abc");
    assert_eq!(scramble("んんー"), "んんー");
}

#[test]
fn pools_pair_wa_group() {
    assert_eq!(swap_pool('わ'), vec!['を']);
    assert_eq!(swap_pool('を'), vec!['わ']);
    assert_eq!(swap_pool('や'), vec!['ゆ', 'よ']);
    assert_eq!(swap_pool('ャ'), vec!['ュ', 'ョ']);
}

#[test]
fn pools_cover_grid_row_and_column() {
    let pool = swap_pool('か');
    assert_eq!(pool.len(), 11);
    assert!(pool.contains(&'さ'));
    assert!(pool.contains(&'き'));
    assert!(!pool.contains(&'か'));
    assert!(!pool.contains(&'し'));
}

#[test]
fn pools_empty_outside_charts() {
    assert!(swap_pool('x').is_empty());
    assert!(swap_pool('ん').is_empty());
    assert!(swap_pool('が').is_empty());
}

#[test]
fn unique_scramble_avoids_taken_strings() {
    let taken = vec!["ねこ".to_string()];
    let out = scramble_unique("ねこ", &taken);
    assert_ne!(out, "ねこ");
}

#[test]
fn unique_scramble_falls_back_on_exhaustion() {
    // A reading with no swappable characters always scrambles to
    // itself, so every attempt collides with the taken list.
    assert!(SCRAMBLE_ATTEMPTS > 0);
    let taken = vec!["ab".to_string()];
    let out = scramble_unique("ab", &taken);
    assert_eq!(out, "？？？");
}
