//! A plain-text rendering of a board, five cards to a row: what an automated
//! capability is shown as its picture of the game. Each card renders as
//! `(word - identity - Guessed|Hidden)`; cards of a row are joined by commas,
//! rows by line breaks.
use vstd::prelude::*;

use crate::game_state::Card;
use crate::game_state::CardV;
use crate::game_state::Identity;
use crate::game_state::Team;
use crate::game_state::card_views;

verus! {

/// The label of an identity.
pub open spec fn identity_label(id: Identity) -> Seq<char> {
    match id {
        Identity::Red => "Red"@,
        Identity::Blue => "Blue"@,
        Identity::Bystander => "Bystander"@,
        Identity::Assassin => "Assassin"@,
        Identity::Hidden => "Hidden"@,
    }
}

/// The label of a team.
pub open spec fn team_label(t: Team) -> Seq<char> {
    match t {
        Team::Red => "Red"@,
        Team::Blue => "Blue"@,
    }
}

/// The rendering of one card.
pub open spec fn card_text(c: CardV) -> Seq<char> {
    "("@ + c.word + " - "@ + identity_label(c.identity) + " - "@ + (if c.guessed {
        "Guessed"@
    } else {
        "Hidden"@
    }) + ")"@
}

/// The rendering of the cards `b[start..end]`, joined by commas.
pub open spec fn row_text(b: Seq<CardV>, start: int, end: int) -> Seq<char>
    decreases end - start,
{
    if start >= end {
        Seq::empty()
    } else if start + 1 == end {
        card_text(b[start])
    } else {
        card_text(b[start]) + ","@ + row_text(b, start + 1, end)
    }
}

/// The rendering of the rows of `b` from `start` on, five cards to a row,
/// joined by line breaks.
pub open spec fn rows_text(b: Seq<CardV>, start: int) -> Seq<char>
    decreases b.len() - start,
{
    if start < 0 || start >= b.len() {
        Seq::empty()
    } else if start + 5 >= b.len() {
        row_text(b, start, b.len() as int)
    } else {
        row_text(b, start, start + 5) + "\n"@ + rows_text(b, start + 5)
    }
}

/// The full rendering of a board.
pub open spec fn board_text(b: Seq<CardV>) -> Seq<char> {
    rows_text(b, 0)
}

impl Identity {
    /// The label of this identity.
    pub fn label(&self) -> (r: &'static str)
        ensures
            r@ == identity_label(*self),
    {
        match self {
            Identity::Red => "Red",
            Identity::Blue => "Blue",
            Identity::Bystander => "Bystander",
            Identity::Assassin => "Assassin",
            Identity::Hidden => "Hidden",
        }
    }
}

impl Team {
    /// The label of this team.
    pub fn label(&self) -> (r: &'static str)
        ensures
            r@ == team_label(*self),
    {
        match self {
            Team::Red => "Red",
            Team::Blue => "Blue",
        }
    }
}

impl Card {
    /// The rendering of this card.
    pub fn display_string(&self) -> (r: String)
        ensures
            r@ == card_text(self@),
    {
        let mut s = String::new();
        s.append("(");
        s.append(self.word());
        s.append(" - ");
        s.append(self.identity().label());
        s.append(" - ");
        s.append(
            if self.guessed() {
                "Guessed"
            } else {
                "Hidden"
            },
        );
        s.append(")");
        s
    }
}

/// The rendering of `board[start..end]` as one comma-joined row.
fn row_string(board: &[Card], start: usize, end: usize) -> (r: String)
    requires
        start <= end <= board@.len(),
    ensures
        r@ == row_text(card_views(board@), start as int, end as int),
    decreases end - start,
{
    broadcast use {crate::game_state::card_views_len, crate::game_state::card_views_index};

    if start >= end {
        String::new()
    } else if start + 1 == end {
        vstd::slice::slice_index_get(board, start).display_string()
    } else {
        let mut s = vstd::slice::slice_index_get(board, start).display_string();
        s.append(",");
        let rest = row_string(board, start + 1, end);
        s.append(rest.as_str());
        s
    }
}

/// The rendering of the rows of `board` from `start` on.
fn rows_string(board: &[Card], start: usize) -> (r: String)
    requires
        start <= board@.len(),
    ensures
        r@ == rows_text(card_views(board@), start as int),
    decreases board@.len() - start,
{
    broadcast use {crate::game_state::card_views_len, crate::game_state::card_views_index};

    if start >= board.len() {
        String::new()
    } else if board.len() - start <= 5 {
        row_string(board, start, board.len())
    } else {
        let mut s = row_string(board, start, start + 5);
        s.append("\n");
        let rest = rows_string(board, start + 5);
        s.append(rest.as_str());
        s
    }
}

/// The plain-text picture of a whole board, five cards to a row.
pub fn board_string(board: &[Card]) -> (r: String)
    ensures
        r@ == board_text(card_views(board@)),
{
    rows_string(board, 0)
}

} // verus!
