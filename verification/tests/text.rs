use codenames::game_state::Card;
use codenames::game_state::Clue;
use codenames::game_state::GameState;
use codenames::game_state::Identity;
use codenames::game_state::Team;
use codenames::text::board_string;

#[test]
fn card_renders_word_identity_and_reveal_state() {
    let card = Card::new("APPLE".to_string(), Identity::Red);
    assert_eq!(card.display_string(), "(APPLE - Red - Hidden)");
}

#[test]
fn labels() {
    assert_eq!(Identity::Bystander.label(), "Bystander");
    assert_eq!(Identity::Assassin.label(), "Assassin");
    assert_eq!(Identity::Hidden.label(), "Hidden");
    assert_eq!(Team::Red.label(), "Red");
    assert_eq!(Team::Blue.label(), "Blue");
}

#[test]
fn row_of_two_cards_is_comma_joined() {
    let cards = vec![
        Card::new("APPLE".to_string(), Identity::Red),
        Card::new("BREAD".to_string(), Identity::Blue),
    ];
    assert_eq!(
        board_string(&cards),
        "(APPLE - Red - Hidden),(BREAD - Blue - Hidden)"
    );
}

#[test]
fn rows_break_after_five_cards() {
    let words = ["A", "B", "C", "D", "E", "F"];
    let cards: Vec<Card> = words
        .iter()
        .map(|w| Card::new(w.to_string(), Identity::Bystander))
        .collect();
    assert_eq!(
        board_string(&cards),
        "(A - Bystander - Hidden),(B - Bystander - Hidden),(C - Bystander - Hidden),\
         (D - Bystander - Hidden),(E - Bystander - Hidden)\n(F - Bystander - Hidden)"
    );
}

#[test]
fn empty_board_renders_empty() {
    let cards: Vec<Card> = Vec::new();
    assert_eq!(board_string(&cards), "");
}

#[test]
fn guessed_card_renders_as_guessed() {
    let words: Vec<String> = (0..25).map(|i| format!("WORD{:02}", i)).collect();
    let mut gs = GameState::new(words);
    gs.provide_clue(Clue::new("OCEAN".to_string(), 2)).unwrap();
    let red_word = gs
        .board()
        .iter()
        .find(|c| *c.identity() == Identity::Red)
        .map(|c| c.word().to_string())
        .unwrap();
    gs.make_guess(red_word.clone()).unwrap();

    let text = board_string(gs.board());
    assert!(text.contains(&format!("({} - Red - Guessed)", red_word)));
    assert_eq!(text.matches("Guessed").count(), 1);
    assert_eq!(text.lines().count(), 5);
}
