//! A server-authoritative core for the Codenames word-association game:
//! a 25-card board with a fixed identity distribution, the clue/guess state
//! machine that enforces legal transitions and detects wins, and the turn
//! controller that mediates between a human player and automated agents.
#![verifier::loop_isolation(false)]

pub mod api;
pub mod controller;
pub mod game_state;
pub mod laws;
pub mod text;
pub mod word_bank;

pub use controller::GameController;
pub use controller::Role;
pub use game_state::Card;
pub use game_state::Clue;
pub use game_state::GameError;
pub use game_state::GameState;
pub use game_state::Identity;
pub use game_state::Phase;
pub use game_state::Team;
pub use word_bank::WordBank;
