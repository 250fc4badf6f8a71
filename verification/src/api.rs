//! The plain shapes a transport layer exchanges with the library: request
//! payloads carried into the controller and the snapshot carried out. Wire
//! encoding and decoding live outside the library; these types hold only the
//! values the core reads and produces.
use vstd::prelude::*;

use crate::controller::Role;
use crate::game_state::GameState;

verus! {

/// A clue submission: the clue word and its declared association count.
pub struct PostClueRequest {
    pub word: String,
    pub count: u8,
}

/// A session creation request: which seat the human takes.
pub struct PostGameRequest {
    pub role: Role,
}

/// A guess submission: the board word the human picks.
pub struct PostGuessRequest {
    pub guess: String,
}

/// The liveness greeting of the service.
pub struct GetRootResponse {
    pub message: String,
}

/// A session snapshot: the (already role-projected) game state and the
/// session's human role.
pub enum GetGameResponse {
    Playing { game_state: GameState, role: Role },
}

} // verus!
