use codenames::game_state::Clue;
use codenames::game_state::GameError;
use codenames::game_state::GameState;
use codenames::game_state::Identity;
use codenames::game_state::Phase;
use codenames::game_state::Team;

fn words25() -> Vec<String> {
    (0..25).map(|i| format!("WORD{:02}", i)).collect()
}

fn new_game() -> GameState {
    GameState::new(words25())
}

/// The word of some unguessed card of the given identity.
fn unguessed_word(gs: &GameState, id: Identity) -> String {
    gs.board()
        .iter()
        .find(|c| *c.identity() == id && !c.guessed())
        .map(|c| c.word().to_string())
        .unwrap()
}

/// A full by-value picture of the state, for before/after comparisons.
fn snapshot(gs: &GameState) -> (Vec<(String, bool, Identity)>, String) {
    let board: Vec<(String, bool, Identity)> = gs
        .board()
        .iter()
        .map(|c| (c.word().to_string(), c.guessed(), c.identity().clone()))
        .collect();
    let phase = match gs.phase() {
        Phase::Clue { team } => format!("Clue {:?}", team),
        Phase::Guess { team, clue } => format!(
            "Guess {:?} {} {} {}",
            team,
            clue.word(),
            clue.count(),
            clue.remaining()
        ),
        Phase::End { winner } => format!("End {:?}", winner),
    };
    (board, phase)
}

#[test]
fn identity_distribution() {
    let gs = new_game();
    let board = gs.board();
    assert_eq!(board.len(), 25);
    let count = |id: Identity| board.iter().filter(|c| *c.identity() == id).count();
    assert_eq!(count(Identity::Red), 9);
    assert_eq!(count(Identity::Blue), 8);
    assert_eq!(count(Identity::Bystander), 7);
    assert_eq!(count(Identity::Assassin), 1);
    assert_eq!(count(Identity::Hidden), 0);
    for i in 0..25 {
        assert!(!board[i].guessed());
        for j in 0..i {
            assert_ne!(board[i].word(), board[j].word());
        }
    }
}

#[test]
fn new_game_starts_with_red_clue() {
    let gs = new_game();
    assert!(matches!(gs.phase(), Phase::Clue { team: Team::Red }));
    assert!(gs.clue().is_none());
    assert!(gs.check_win_state().is_none());
}

#[test]
fn correct_guess_keeps_turn_then_bystander_passes_it() {
    let mut gs = new_game();
    gs.provide_clue(Clue::new("OCEAN".to_string(), 2)).unwrap();

    let red_word = unguessed_word(&gs, Identity::Red);
    gs.make_guess(red_word).unwrap();
    assert!(matches!(gs.phase(), Phase::Guess { team: Team::Red, .. }));
    assert_eq!(gs.clue().unwrap().remaining(), 1);
    assert_eq!(gs.clue().unwrap().word(), "OCEAN");

    let bystander_word = unguessed_word(&gs, Identity::Bystander);
    gs.make_guess(bystander_word).unwrap();
    assert!(matches!(gs.phase(), Phase::Clue { team: Team::Blue }));
}

#[test]
fn sweeping_red_wins_immediately() {
    let mut gs = new_game();
    gs.provide_clue(Clue::new("EVERYTHING".to_string(), 9)).unwrap();
    for _ in 0..8 {
        let w = unguessed_word(&gs, Identity::Red);
        gs.make_guess(w).unwrap();
        assert!(matches!(gs.phase(), Phase::Guess { team: Team::Red, .. }));
    }
    let last = unguessed_word(&gs, Identity::Red);
    gs.make_guess(last).unwrap();
    assert!(matches!(
        gs.phase(),
        Phase::End { winner: Some(Team::Red) }
    ));
    assert_eq!(gs.check_win_state(), Some(Team::Red));
}

#[test]
fn clue_equal_to_board_word_is_rejected() {
    let mut gs = new_game();
    let board_word = gs.board()[0].word().to_string();
    let before = snapshot(&gs);
    let res = gs.provide_clue(Clue::new(board_word, 2));
    assert_eq!(res, Err(GameError::IllegalClueWord));
    assert!(matches!(gs.phase(), Phase::Clue { team: Team::Red }));
    assert_eq!(snapshot(&gs), before);
}

#[test]
fn guess_during_clue_phase_is_rejected() {
    let mut gs = new_game();
    let board_word = gs.board()[0].word().to_string();
    let before = snapshot(&gs);
    let res = gs.make_guess(board_word);
    assert_eq!(res, Err(GameError::WrongPhase));
    assert_eq!(snapshot(&gs), before);
}

#[test]
fn clue_during_guess_phase_is_rejected() {
    let mut gs = new_game();
    gs.provide_clue(Clue::new("OCEAN".to_string(), 2)).unwrap();
    let before = snapshot(&gs);
    let res = gs.provide_clue(Clue::new("RIVER".to_string(), 1));
    assert_eq!(res, Err(GameError::WrongPhase));
    assert_eq!(snapshot(&gs), before);
}

#[test]
fn assassin_ends_game_for_other_team() {
    let mut gs = new_game();
    gs.provide_clue(Clue::new("OCEAN".to_string(), 3)).unwrap();
    let assassin_word = unguessed_word(&gs, Identity::Assassin);
    gs.make_guess(assassin_word).unwrap();
    assert!(matches!(
        gs.phase(),
        Phase::End { winner: Some(Team::Blue) }
    ));
}

#[test]
fn wrong_color_guess_passes_turn() {
    let mut gs = new_game();
    gs.provide_clue(Clue::new("OCEAN".to_string(), 3)).unwrap();
    let blue_word = unguessed_word(&gs, Identity::Blue);
    gs.make_guess(blue_word).unwrap();
    assert!(matches!(gs.phase(), Phase::Clue { team: Team::Blue }));
}

#[test]
fn exhausted_allowance_passes_turn() {
    let mut gs = new_game();
    gs.provide_clue(Clue::new("OCEAN".to_string(), 1)).unwrap();
    let red_word = unguessed_word(&gs, Identity::Red);
    gs.make_guess(red_word).unwrap();
    assert!(matches!(gs.phase(), Phase::Clue { team: Team::Blue }));
}

#[test]
fn zero_count_clue_allows_one_guess_then_passes() {
    let mut gs = new_game();
    gs.provide_clue(Clue::new("OCEAN".to_string(), 0)).unwrap();
    assert_eq!(gs.clue().unwrap().remaining(), 0);
    let red_word = unguessed_word(&gs, Identity::Red);
    gs.make_guess(red_word).unwrap();
    assert!(matches!(gs.phase(), Phase::Clue { team: Team::Blue }));
}

#[test]
fn unknown_word_is_rejected() {
    let mut gs = new_game();
    gs.provide_clue(Clue::new("OCEAN".to_string(), 2)).unwrap();
    let before = snapshot(&gs);
    let res = gs.make_guess("NOT_ON_THE_BOARD".to_string());
    assert_eq!(res, Err(GameError::WordNotOnBoard));
    assert_eq!(snapshot(&gs), before);
}

#[test]
fn repeated_guess_is_rejected() {
    let mut gs = new_game();
    gs.provide_clue(Clue::new("OCEAN".to_string(), 3)).unwrap();
    let red_word = unguessed_word(&gs, Identity::Red);
    gs.make_guess(red_word.clone()).unwrap();
    assert_eq!(gs.clue().unwrap().remaining(), 2);
    let before = snapshot(&gs);
    let res = gs.make_guess(red_word);
    assert_eq!(res, Err(GameError::AlreadyGuessed));
    assert_eq!(snapshot(&gs), before);
    assert_eq!(gs.clue().unwrap().remaining(), 2);
}

#[test]
fn hidden_board_masks_unguessed_cards_only() {
    let mut gs = new_game();
    gs.provide_clue(Clue::new("OCEAN".to_string(), 2)).unwrap();
    let red_word = unguessed_word(&gs, Identity::Red);
    gs.make_guess(red_word.clone()).unwrap();

    let hidden = gs.to_hidden_board();
    assert_eq!(hidden.len(), 25);
    for (c, h) in gs.board().iter().zip(hidden.iter()) {
        assert_eq!(c.word(), h.word());
        assert_eq!(c.guessed(), h.guessed());
        if c.guessed() {
            assert_eq!(h.identity(), c.identity());
        } else {
            assert_eq!(*h.identity(), Identity::Hidden);
        }
    }
    let revealed = hidden.iter().find(|c| c.word() == red_word).unwrap();
    assert_eq!(*revealed.identity(), Identity::Red);
}

#[test]
fn hiding_twice_equals_hiding_once() {
    let mut gs = new_game();
    gs.provide_clue(Clue::new("OCEAN".to_string(), 2)).unwrap();
    let red_word = unguessed_word(&gs, Identity::Red);
    gs.make_guess(red_word).unwrap();

    let once = gs.to_hidden_game_state();
    let twice = once.to_hidden_game_state();
    assert_eq!(snapshot(&twice), snapshot(&once));
}

#[test]
fn turns_alternate_between_teams() {
    let mut gs = new_game();
    gs.provide_clue(Clue::new("OCEAN".to_string(), 1)).unwrap();
    let red_word = unguessed_word(&gs, Identity::Red);
    gs.make_guess(red_word).unwrap();
    assert!(matches!(gs.phase(), Phase::Clue { team: Team::Blue }));

    gs.provide_clue(Clue::new("RIVER".to_string(), 1)).unwrap();
    assert!(matches!(gs.phase(), Phase::Guess { team: Team::Blue, .. }));
    let blue_word = unguessed_word(&gs, Identity::Blue);
    gs.make_guess(blue_word).unwrap();
    assert!(matches!(gs.phase(), Phase::Clue { team: Team::Red }));
}

#[test]
fn wrong_color_guess_that_sweeps_opponent_ends_game() {
    let mut gs = new_game();
    // Red passes its turn on a bystander.
    gs.provide_clue(Clue::new("OCEAN".to_string(), 0)).unwrap();
    let bystander = unguessed_word(&gs, Identity::Bystander);
    gs.make_guess(bystander).unwrap();
    assert!(matches!(gs.phase(), Phase::Clue { team: Team::Blue }));

    // Blue reveals seven of its eight cards, then yields on a bystander.
    gs.provide_clue(Clue::new("RIVER".to_string(), 8)).unwrap();
    for _ in 0..7 {
        let w = unguessed_word(&gs, Identity::Blue);
        gs.make_guess(w).unwrap();
        assert!(matches!(gs.phase(), Phase::Guess { team: Team::Blue, .. }));
    }
    let bystander = unguessed_word(&gs, Identity::Bystander);
    gs.make_guess(bystander).unwrap();
    assert!(matches!(gs.phase(), Phase::Clue { team: Team::Red }));

    // Red mistakenly reveals the last Blue card: the sweep outranks the
    // turn pass, so the game ends for Blue at once.
    gs.provide_clue(Clue::new("STONE".to_string(), 1)).unwrap();
    let last_blue = unguessed_word(&gs, Identity::Blue);
    gs.make_guess(last_blue).unwrap();
    assert!(matches!(
        gs.phase(),
        Phase::End { winner: Some(Team::Blue) }
    ));
}
