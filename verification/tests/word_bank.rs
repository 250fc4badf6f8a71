use codenames::word_bank::WordBank;
use codenames::word_bank::words_distinct;

fn pool(n: usize) -> Vec<String> {
    (0..n).map(|i| format!("POOL{:03}", i)).collect()
}

#[test]
fn draw_has_requested_size() {
    let bank = WordBank::new(pool(50));
    let draw = bank.get_word_set(25);
    assert_eq!(draw.len(), 25);
}

#[test]
fn draw_is_capped_by_pool_size() {
    let bank = WordBank::new(pool(10));
    let draw = bank.get_word_set(25);
    assert_eq!(draw.len(), 10);
}

#[test]
fn draw_comes_from_the_pool_without_repetition() {
    let words = pool(40);
    let bank = WordBank::new(words.clone());
    let draw = bank.get_word_set(25);
    for w in draw.iter() {
        assert!(words.contains(w));
    }
    assert!(words_distinct(&draw));
}

#[test]
fn distinctness_check() {
    assert!(words_distinct(&pool(25)));
    assert!(words_distinct(&Vec::new()));
    let mut dup = pool(24);
    dup.push("POOL000".to_string());
    assert!(!words_distinct(&dup));
}
