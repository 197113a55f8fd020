use std::collections::HashSet;

use user_identity::access_key::{
    access_key_from_draws, generate_user_access_key, random_draws, symbol_of, KEY_CHARS, KEY_LEN,
    SYMBOLS,
};
use user_identity::identity::NewUser;

fn is_key_char(c: char) -> bool {
    c.is_ascii_uppercase() || c.is_ascii_digit()
}

fn has_key_shape(k: &str) -> bool {
    let groups: Vec<&str> = k.split('-').collect();
    let lens: Vec<usize> = groups.iter().map(|g| g.len()).collect();
    lens == vec![8, 4, 4, 10, 2] && groups.iter().all(|g| g.chars().all(is_key_char))
}

#[test]
fn generated_key_has_the_grouped_shape() {
    for _ in 0..1000 {
        let k = generate_user_access_key();
        assert_eq!(k.len(), KEY_LEN);
        assert!(has_key_shape(&k), "bad key {}", k);
    }
}

#[test]
fn generated_keys_are_uniform_per_position_and_distinct() {
    const SAMPLES: usize = 100_000;
    let alphabet: Vec<char> = ('A'..='Z').chain('0'..='9').collect();
    let mut counts = vec![vec![0u64; alphabet.len()]; KEY_CHARS];
    let mut seen: HashSet<String> = HashSet::new();
    for _ in 0..SAMPLES {
        let k = generate_user_access_key();
        let chars: Vec<char> = k.chars().filter(|c| *c != '-').collect();
        assert_eq!(chars.len(), KEY_CHARS);
        for (pos, c) in chars.iter().enumerate() {
            let idx = alphabet.iter().position(|a| a == c).expect("character outside [A-Z0-9]");
            counts[pos][idx] += 1;
        }
        assert!(seen.insert(k), "duplicate key in sample");
    }
    // 35 degrees of freedom: a statistic above 100 has probability far below 1e-6.
    let expected = SAMPLES as f64 / alphabet.len() as f64;
    for (pos, row) in counts.iter().enumerate() {
        let chi2: f64 = row.iter().map(|&n| (n as f64 - expected).powi(2) / expected).sum();
        assert!(chi2 < 100.0, "position {} is not uniform: chi-square {}", pos, chi2);
    }
}

#[test]
fn draws_are_laid_out_in_groups() {
    let draws: Vec<u8> = (0..28).collect();
    assert_eq!(draws.len(), KEY_CHARS);
    assert_eq!(access_key_from_draws(&draws), "ABCDEFGH-IJKL-MNOP-QRSTUVWXYZ-01");
}

#[test]
fn largest_draws_give_nines() {
    let draws: Vec<u8> = vec![SYMBOLS - 1; KEY_CHARS];
    assert_eq!(access_key_from_draws(&draws), "99999999-9999-9999-9999999999-99");
}

#[test]
fn each_symbol_is_reached_once() {
    let all: String = (0..SYMBOLS).map(symbol_of).collect();
    assert_eq!(all, "ABCDEFGHIJKLMNOPQRSTUVWXYZ0123456789");
}

#[test]
fn random_draws_stay_below_symbol_count() {
    let d = random_draws(500);
    assert_eq!(d.len(), 500);
    assert!(d.iter().all(|b| *b < SYMBOLS));
    assert!(random_draws(0).is_empty());
}

#[test]
fn default_request_carries_a_generated_key() {
    let a = NewUser::default();
    let b = NewUser::default();
    assert!(has_key_shape(a.access_key()));
    assert!(has_key_shape(b.access_key()));
    assert_ne!(a.access_key(), b.access_key());
}

#[test]
fn request_keeps_the_supplied_key() {
    let r = NewUser::with_access_key("abc-Def".to_string());
    assert_eq!(r.access_key(), "abc-Def");
}
