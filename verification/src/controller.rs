//! The turn controller: it knows which seat each duty belongs to, admits a
//! human submission only on the human's turn, tells the surrounding driver
//! which automated seat must move next, and produces the role-appropriate
//! snapshot after every change. The driver that awaits automated capabilities
//! and serializes concurrent access sits outside the library; every decision
//! it acts on is taken here.
use vstd::prelude::*;

use crate::api::GetGameResponse;
use crate::game_state::Clue;
use crate::game_state::ClueV;
use crate::game_state::GameError;
use crate::game_state::GameState;
use crate::game_state::GameStateV;
use crate::game_state::Phase;
use crate::game_state::PhaseV;
use crate::game_state::Team;
use crate::game_state::hide_board;
use crate::game_state::spec_make_guess;
use crate::game_state::spec_provide_clue;

verus! {

/// Which seat the one human of a session occupies. The three remaining seats
/// are automated.
#[derive(Clone, Copy, Debug, PartialEq, Eq, Structural)]
pub enum Role {
    RedOperative,
    RedSpymaster,
}

/// The two duties a team fills each round.
#[derive(Clone, Copy, Debug, PartialEq, Eq, Structural)]
pub enum Duty {
    Spymaster,
    Operative,
}

/// Who answers for a seat: the session's human, or an automated capability.
#[derive(Clone, Copy, Debug, PartialEq, Eq, Structural)]
pub enum AgentKind {
    Human,
    Automated,
}

/// The human-backed capability: it never generates a move by itself, which is
/// how the controller knows to stop and wait for a submission.
pub struct Player;

impl Player {
    /// A human guessing seat yields no automated guesses.
    pub fn try_gen_guesses(&self, game_state: &GameState) -> (r: Option<Vec<String>>)
        ensures
            r is None,
    {
        let _ = game_state;
        None
    }

    /// A human clue-giving seat yields no automated clue.
    pub fn try_gen_clue(&self, game_state: &GameState) -> (r: Option<Clue>)
        ensures
            r is None,
    {
        let _ = game_state;
        None
    }

    pub fn is_player(&self) -> (r: bool)
        ensures
            r,
    {
        true
    }
}

/// The four seats of a session and who answers for each.
#[derive(Clone, Copy, Debug, PartialEq, Eq, Structural)]
pub struct Agents {
    pub red_operative: AgentKind,
    pub blue_operative: AgentKind,
    pub red_spymaster: AgentKind,
    pub blue_spymaster: AgentKind,
}

/// The seat assignment a session role fixes: the human fills exactly the
/// named seat, the other three are automated.
pub open spec fn agents_for(role: Role) -> Agents {
    match role {
        Role::RedOperative => Agents {
            red_operative: AgentKind::Human,
            blue_operative: AgentKind::Automated,
            red_spymaster: AgentKind::Automated,
            blue_spymaster: AgentKind::Automated,
        },
        Role::RedSpymaster => Agents {
            red_operative: AgentKind::Automated,
            blue_operative: AgentKind::Automated,
            red_spymaster: AgentKind::Human,
            blue_spymaster: AgentKind::Automated,
        },
    }
}

/// Who answers for `team`'s spymaster seat.
pub open spec fn spymaster_kind(a: Agents, team: Team) -> AgentKind {
    match team {
        Team::Red => a.red_spymaster,
        Team::Blue => a.blue_spymaster,
    }
}

/// Who answers for `team`'s operative seat.
pub open spec fn operative_kind(a: Agents, team: Team) -> AgentKind {
    match team {
        Team::Red => a.red_operative,
        Team::Blue => a.blue_operative,
    }
}

/// Who must act in `phase`, if anyone: the acting team's spymaster while a
/// clue is due, its operative while guesses are due, nobody once the game
/// ended.
pub open spec fn acting_kind(a: Agents, phase: PhaseV) -> Option<AgentKind> {
    match phase {
        PhaseV::Clue { team } => Some(spymaster_kind(a, team)),
        PhaseV::Guess { team, .. } => Some(operative_kind(a, team)),
        PhaseV::End { .. } => None,
    }
}

impl Agents {
    pub fn new(role: Role) -> (a: Agents)
        ensures
            a == agents_for(role),
    {
        match role {
            Role::RedOperative => Agents {
                red_operative: AgentKind::Human,
                blue_operative: AgentKind::Automated,
                red_spymaster: AgentKind::Automated,
                blue_spymaster: AgentKind::Automated,
            },
            Role::RedSpymaster => Agents {
                red_operative: AgentKind::Automated,
                blue_operative: AgentKind::Automated,
                red_spymaster: AgentKind::Human,
                blue_spymaster: AgentKind::Automated,
            },
        }
    }

    /// Whether identities must be hidden from the session's audience:
    /// exactly when an operative seat is human, since a clue-giving human is
    /// entitled to the true board.
    pub open spec fn spec_should_hide_board(&self) -> bool {
        self.red_operative == AgentKind::Human || self.blue_operative == AgentKind::Human
    }

    #[verifier::when_used_as_spec(spec_should_hide_board)]
    pub fn should_hide_board(&self) -> (r: bool)
        ensures
            r == self.spec_should_hide_board(),
    {
        match self.red_operative {
            AgentKind::Human => true,
            AgentKind::Automated => match self.blue_operative {
                AgentKind::Human => true,
                AgentKind::Automated => false,
            },
        }
    }
}

/// The role-projected snapshot handed to the session's audience.
pub type GameData = GetGameResponse;

/// One session's controller: the game state, the seat assignment, and the
/// session's human role.
pub struct GameController {
    game_state: GameState,
    agents: Agents,
    role: Role,
}

/// The mathematical value of a [`GameController`].
#[verifier::ext_equal]
pub struct ControllerV {
    pub state: GameStateV,
    pub agents: Agents,
    pub role: Role,
}

impl View for GameController {
    type V = ControllerV;

    closed spec fn view(&self) -> ControllerV {
        ControllerV { state: self.game_state@, agents: self.agents, role: self.role }
    }
}

/// Whether the session's human is the one who must act in `c`'s phase.
pub open spec fn spec_is_player_turn(c: ControllerV) -> bool {
    acting_kind(c.agents, c.state.phase) == Some(AgentKind::Human)
}

/// The automated seat that must move next, if the game is neither over nor
/// waiting on the human.
pub open spec fn spec_pending_automated_seat(c: ControllerV) -> Option<(Team, Duty)> {
    match c.state.phase {
        PhaseV::Clue { team } => if spymaster_kind(c.agents, team) == AgentKind::Human {
            None
        } else {
            Some((team, Duty::Spymaster))
        },
        PhaseV::Guess { team, .. } => if operative_kind(c.agents, team) == AgentKind::Human {
            None
        } else {
            Some((team, Duty::Operative))
        },
        PhaseV::End { .. } => None,
    }
}

impl GameController {
    /// A controller's board is a real deal and its seats are the ones its
    /// role fixes.
    pub open spec fn wf(&self) -> bool {
        &&& crate::game_state::board_wf(self@.state.board)
        &&& self@.agents == agents_for(self@.role)
    }

    /// Starts a session: a fresh deal over the 25 words, Red's spymaster to
    /// move, and the human seated according to `role`.
    pub fn new(role: Role, words: Vec<String>) -> (r: GameController)
        requires
            words@.len() == 25,
            forall|i: int, j: int| 0 <= i < j < 25 ==> words@[i]@ != words@[j]@,
        ensures
            r.wf(),
            r@.role == role,
            r@.state.phase == (PhaseV::Clue { team: Team::Red }),
            forall|i: int| #![trigger r@.state.board[i]]
                0 <= i < 25 ==> r@.state.board[i].word == words@[i]@ && !r@.state.board[i].guessed,
    {
        let game_state = GameState::new(words);
        let agents = Agents::new(role);
        let r = GameController { game_state, agents, role };
        proof {
            assert(r@.state == game_state@);
            assert forall|i: int| #![trigger r@.state.board[i]]
                0 <= i < 25 implies r@.state.board[i].word == words@[i]@
                && !r@.state.board[i].guessed by {
                assert(game_state@.board[i].word == words@[i]@ && !game_state@.board[i].guessed);
            }
        }
        r
    }

    /// Whether the session's human must act now.
    pub fn is_player_turn(&self) -> (r: bool)
        ensures
            r == spec_is_player_turn(self@),
    {
        match self.game_state.phase() {
            Phase::Clue { team: Team::Red } => self.agents.red_spymaster == AgentKind::Human,
            Phase::Clue { team: Team::Blue } => self.agents.blue_spymaster == AgentKind::Human,
            Phase::Guess { team: Team::Red, .. } => self.agents.red_operative == AgentKind::Human,
            Phase::Guess { team: Team::Blue, .. } => self.agents.blue_operative
                == AgentKind::Human,
            Phase::End { .. } => false,
        }
    }

    /// The automated seat that must move next, if any.
    pub fn pending_automated_seat(&self) -> (r: Option<(Team, Duty)>)
        ensures
            r == spec_pending_automated_seat(self@),
    {
        match self.game_state.phase() {
            Phase::Clue { team } => {
                let team = *team;
                let kind = match team {
                    Team::Red => self.agents.red_spymaster,
                    Team::Blue => self.agents.blue_spymaster,
                };
                match kind {
                    AgentKind::Human => None,
                    AgentKind::Automated => Some((team, Duty::Spymaster)),
                }
            },
            Phase::Guess { team, .. } => {
                let team = *team;
                let kind = match team {
                    Team::Red => self.agents.red_operative,
                    Team::Blue => self.agents.blue_operative,
                };
                match kind {
                    AgentKind::Human => None,
                    AgentKind::Automated => Some((team, Duty::Operative)),
                }
            },
            Phase::End { .. } => None,
        }
    }

    /// A clue submitted by the session's human: rejected with `NotYourTurn`
    /// off the human's turn, otherwise handed to the state machine. Either
    /// way a rejection leaves the session untouched.
    pub fn player_clue(&mut self, word: String, count: u8) -> (r: Result<(), GameError>)
        requires
            old(self).wf(),
        ensures
            final(self).wf(),
            final(self)@.agents == old(self)@.agents,
            final(self)@.role == old(self)@.role,
            match r {
                Ok(()) => {
                    &&& spec_is_player_turn(old(self)@)
                    &&& spec_provide_clue(
                        old(self)@.state,
                        ClueV { word: word@, count, remaining: count },
                    ) == Ok::<GameStateV, GameError>(final(self)@.state)
                },
                Err(e) => {
                    &&& final(self)@ == old(self)@
                    &&& if !spec_is_player_turn(old(self)@) {
                        e == GameError::NotYourTurn
                    } else {
                        spec_provide_clue(
                            old(self)@.state,
                            ClueV { word: word@, count, remaining: count },
                        ) == Err::<GameStateV, GameError>(e)
                    }
                },
            },
    {
        if !self.is_player_turn() {
            return Err(GameError::NotYourTurn);
        }
        let clue = Clue::new(word, count);
        self.game_state.provide_clue(clue)
    }

    /// A guess submitted by the session's human: rejected with `NotYourTurn`
    /// off the human's turn, otherwise handed to the state machine. Either
    /// way a rejection leaves the session untouched.
    pub fn player_guess(&mut self, guess: String) -> (r: Result<(), GameError>)
        requires
            old(self).wf(),
        ensures
            final(self).wf(),
            final(self)@.agents == old(self)@.agents,
            final(self)@.role == old(self)@.role,
            match r {
                Ok(()) => {
                    &&& spec_is_player_turn(old(self)@)
                    &&& spec_make_guess(old(self)@.state, guess@) == Ok::<GameStateV, GameError>(
                        final(self)@.state,
                    )
                },
                Err(e) => {
                    &&& final(self)@ == old(self)@
                    &&& if !spec_is_player_turn(old(self)@) {
                        e == GameError::NotYourTurn
                    } else {
                        spec_make_guess(old(self)@.state, guess@) == Err::<GameStateV, GameError>(
                            e,
                        )
                    }
                },
            },
    {
        if !self.is_player_turn() {
            return Err(GameError::NotYourTurn);
        }
        self.game_state.make_guess(guess)
    }

    /// A clue produced by an automated spymaster, applied for the drain loop.
    pub fn apply_clue(&mut self, clue: Clue) -> (r: Result<(), GameError>)
        requires
            old(self).wf(),
        ensures
            final(self).wf(),
            final(self)@.agents == old(self)@.agents,
            final(self)@.role == old(self)@.role,
            match r {
                Ok(()) => spec_provide_clue(old(self)@.state, clue@) == Ok::<
                    GameStateV,
                    GameError,
                >(final(self)@.state),
                Err(e) => {
                    &&& spec_provide_clue(old(self)@.state, clue@) == Err::<GameStateV, GameError>(
                        e,
                    )
                    &&& final(self)@ == old(self)@
                },
            },
    {
        self.game_state.provide_clue(clue)
    }

    /// A guess produced by an automated operative, applied for the drain
    /// loop.
    pub fn apply_guess(&mut self, guess: String) -> (r: Result<(), GameError>)
        requires
            old(self).wf(),
        ensures
            final(self).wf(),
            final(self)@.agents == old(self)@.agents,
            final(self)@.role == old(self)@.role,
            match r {
                Ok(()) => spec_make_guess(old(self)@.state, guess@) == Ok::<GameStateV, GameError>(
                    final(self)@.state,
                ),
                Err(e) => {
                    &&& spec_make_guess(old(self)@.state, guess@) == Err::<GameStateV, GameError>(
                        e,
                    )
                    &&& final(self)@ == old(self)@
                },
            },
    {
        self.game_state.make_guess(guess)
    }

    /// An owned copy of the true game state, for the capability that is
    /// entitled to it (the clue-giving side sees real identities; a guessing
    /// capability must project it hidden before use).
    pub fn game_snapshot(&self) -> (r: GameState)
        ensures
            r@ == self@.state,
    {
        self.game_state.clone()
    }

    /// The seat assignment of this session.
    pub fn agents(&self) -> (a: &Agents)
        ensures
            *a == self@.agents,
    {
        &self.agents
    }

    /// The snapshot for this session's audience: the true state for a
    /// clue-giving human, the hidden projection for a guessing one.
    pub fn game_data(&self) -> (r: GameData)
        ensures
            match r {
                GetGameResponse::Playing { game_state, role } => {
                    &&& role == self@.role
                    &&& game_state@.phase == self@.state.phase
                    &&& game_state@.board == if self@.agents.spec_should_hide_board() {
                        hide_board(self@.state.board)
                    } else {
                        self@.state.board
                    }
                },
            },
    {
        let game_state = if self.agents.should_hide_board() {
            self.game_state.to_hidden_game_state()
        } else {
            self.game_state.clone()
        };
        GetGameResponse::Playing { game_state, role: self.role }
    }
}

} // verus!
