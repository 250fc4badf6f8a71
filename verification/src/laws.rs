//! Game-wide laws, stated and proved over the state machine's mathematical
//! model. Each law is a consequence of the transition functions alone, so it
//! holds of every game the library can produce.
use vstd::prelude::*;

use crate::game_state::CardV;
use crate::game_state::ClueV;
use crate::game_state::GameError;
use crate::game_state::GameStateV;
use crate::game_state::Identity;
use crate::game_state::PhaseV;
use crate::game_state::Team;
use crate::game_state::hide_board;
use crate::game_state::hide_board_index;
use crate::game_state::hide_board_len;
use crate::game_state::index_of_word;
use crate::game_state::spec_make_guess;
use crate::game_state::spec_winner;

verus! {

/// The identity a guess of `w` in state `s` would reveal; meaningful only
/// while the guess is legal.
pub open spec fn guess_reveals(s: GameStateV, w: Seq<char>) -> Identity {
    s.board[index_of_word(s.board, w)].identity
}

/// The guess allowance left after one guess against `clue`: one fewer,
/// never below zero.
pub open spec fn remaining_after(clue: ClueV) -> u8 {
    if clue.remaining > 0 {
        (clue.remaining - 1) as u8
    } else {
        0u8
    }
}

/// Turn alternation. In a game that neither ends by assassin nor by a sweep,
/// a legal guess passes the turn to the other team's spymaster exactly when
/// it reveals a card that is not the guessing team's own, or exhausts the
/// clue's allowance; an own-color reveal with allowance left keeps the same
/// team guessing against the decremented clue.
pub proof fn lemma_turn_alternation(
    s: GameStateV,
    w: Seq<char>,
    team: Team,
    clue: ClueV,
    s2: GameStateV,
)
    requires
        s.phase == (PhaseV::Guess { team, clue }),
        spec_make_guess(s, w) == Ok::<GameStateV, GameError>(s2),
        guess_reveals(s, w) != Identity::Assassin,
        spec_winner(s2.board) is None,
    ensures
        (guess_reveals(s, w) != team.spec_identity() || remaining_after(clue) == 0) ==> s2.phase
            == (PhaseV::Clue { team: team.spec_other() }),
        (guess_reveals(s, w) == team.spec_identity() && remaining_after(clue) > 0) ==> s2.phase
            == (PhaseV::Guess {
            team,
            clue: ClueV { word: clue.word, count: clue.count, remaining: remaining_after(clue) },
        }),
{
}

/// Assassin terminality. A legal guess that reveals the assassin ends the
/// game at once, with the other team the winner, whatever allowance the clue
/// still had.
pub proof fn lemma_assassin_terminal(
    s: GameStateV,
    w: Seq<char>,
    team: Team,
    clue: ClueV,
    s2: GameStateV,
)
    requires
        s.phase == (PhaseV::Guess { team, clue }),
        spec_make_guess(s, w) == Ok::<GameStateV, GameError>(s2),
        guess_reveals(s, w) == Identity::Assassin,
    ensures
        s2.phase == (PhaseV::End { winner: Some(team.spec_other()) }),
{
}

/// Reveal monotonicity. A successful guess reveals exactly one previously
/// unguessed card and touches nothing else: no card un-reveals, and every
/// word and identity stays where it was. The guessed count therefore grows
/// strictly, which is what bounds any run of consecutive turns by the finite
/// board.
pub proof fn lemma_guess_monotonic(s: GameStateV, w: Seq<char>, s2: GameStateV)
    requires
        spec_make_guess(s, w) == Ok::<GameStateV, GameError>(s2),
    ensures
        s2.board.len() == s.board.len(),
        forall|j: int|
            0 <= j < s.board.len() && s.board[j].guessed ==> #[trigger] s2.board[j].guessed,
        exists|j: int|
            0 <= j < s.board.len() && !s.board[j].guessed && #[trigger] s2.board[j].guessed,
        forall|j: int|
            0 <= j < s.board.len() ==> #[trigger] s2.board[j].word == s.board[j].word
                && s2.board[j].identity == s.board[j].identity,
{
    let i = index_of_word(s.board, w);
    assert(!s.board[i].guessed && s2.board[i].guessed);
}

/// Idempotent visibility projection: hiding an already-hidden board changes
/// nothing, so a snapshot may be projected again without harm.
pub proof fn lemma_hidden_idempotent(b: Seq<CardV>)
    ensures
        hide_board(hide_board(b)) == hide_board(b),
{
    broadcast use {hide_board_len, hide_board_index};

    assert(hide_board(hide_board(b)) =~= hide_board(b));
}

} // verus!
