//! The board model and the game state machine: cards, clues, phases, and the
//! two transitions (`provide_clue`, `make_guess`) that drive a game forward.
//! Every transition either succeeds and moves to the next phase, or fails with
//! a typed error and leaves the state untouched.
use vstd::prelude::*;

use rand::seq::SliceRandom;

verus! {

/// The two competing teams.
#[derive(Clone, Copy, Debug, PartialEq, Eq, Structural)]
pub enum Team {
    Red,
    Blue,
}

/// The hidden allegiance of a card. `Hidden` never appears on a real board;
/// it is the placeholder used when a board is projected for an audience that
/// may not see unguessed identities.
#[derive(Clone, Copy, Debug, PartialEq, Eq, Structural)]
pub enum Identity {
    Red,
    Blue,
    Bystander,
    Assassin,
    Hidden,
}

/// Every way an operation on a game can be rejected. Rejected operations
/// never change the state they were aimed at.
#[derive(Clone, Copy, Debug, PartialEq, Eq, Structural)]
pub enum GameError {
    /// The submitted clue word is one of the words on the board.
    IllegalClueWord,
    /// The operation is not legal in the current phase.
    WrongPhase,
    /// The guessed word is not on the board.
    WordNotOnBoard,
    /// The guessed card was already revealed.
    AlreadyGuessed,
    /// A human submission arrived while an automated seat (or nobody) acts.
    NotYourTurn,
    /// No session with the given id exists.
    SessionNotFound,
    /// An automated capability did not answer in time.
    CapabilityTimeout,
}

impl Team {
    /// The opposing team.
    pub open spec fn spec_other(&self) -> Team {
        match self {
            Team::Red => Team::Blue,
            Team::Blue => Team::Red,
        }
    }

    /// The identity that marks this team's cards.
    pub open spec fn spec_identity(&self) -> Identity {
        match self {
            Team::Red => Identity::Red,
            Team::Blue => Identity::Blue,
        }
    }

    #[verifier::when_used_as_spec(spec_other)]
    pub fn other(&self) -> (r: Team)
        ensures
            r == self.spec_other(),
    {
        match self {
            Team::Red => Team::Blue,
            Team::Blue => Team::Red,
        }
    }

    #[verifier::when_used_as_spec(spec_identity)]
    pub fn identity(&self) -> (r: Identity)
        ensures
            r == self.spec_identity(),
    {
        match self {
            Team::Red => Identity::Red,
            Team::Blue => Identity::Blue,
        }
    }
}

/// One card of the board: a word, its fixed identity, and whether it has been
/// guessed. The word and identity never change after creation; `guessed`
/// flips false to true exactly once.
pub struct Card {
    word: String,
    guessed: bool,
    identity: Identity,
}

/// The mathematical value of a [`Card`].
#[verifier::ext_equal]
pub struct CardV {
    pub word: Seq<char>,
    pub guessed: bool,
    pub identity: Identity,
}

impl View for Card {
    type V = CardV;

    closed spec fn view(&self) -> CardV {
        CardV { word: self.word@, guessed: self.guessed, identity: self.identity }
    }
}

impl Card {
    pub fn new(word: String, identity: Identity) -> (c: Card)
        ensures
            c@ == (CardV { word: word@, guessed: false, identity }),
    {
        Card { word, guessed: false, identity }
    }

    pub fn word(&self) -> (w: &str)
        ensures
            w@ == self@.word,
    {
        self.word.as_str()
    }

    pub fn identity(&self) -> (i: &Identity)
        ensures
            *i == self@.identity,
    {
        &self.identity
    }

    pub fn guessed(&self) -> (g: bool)
        ensures
            g == self@.guessed,
    {
        self.guessed
    }
}

impl Clone for Card {
    fn clone(&self) -> (c: Self)
        ensures
            c@ == self@,
    {
        Card { word: self.word.clone(), guessed: self.guessed, identity: self.identity }
    }
}

/// A spymaster's clue: a word, the declared number of associated cards, and
/// how many guesses are still allowed this turn (initially equal to `count`).
pub struct Clue {
    word: String,
    count: u8,
    remaining: u8,
}

/// The mathematical value of a [`Clue`].
#[verifier::ext_equal]
pub struct ClueV {
    pub word: Seq<char>,
    pub count: u8,
    pub remaining: u8,
}

impl View for Clue {
    type V = ClueV;

    closed spec fn view(&self) -> ClueV {
        ClueV { word: self.word@, count: self.count, remaining: self.remaining }
    }
}

impl Clue {
    pub fn new(word: String, count: u8) -> (c: Clue)
        ensures
            c@ == (ClueV { word: word@, count, remaining: count }),
    {
        Clue { word, count, remaining: count }
    }

    pub fn word(&self) -> (w: &str)
        ensures
            w@ == self@.word,
    {
        self.word.as_str()
    }

    pub fn count(&self) -> (n: u8)
        ensures
            n == self@.count,
    {
        self.count
    }

    pub fn remaining(&self) -> (n: u8)
        ensures
            n == self@.remaining,
    {
        self.remaining
    }
}

impl Clone for Clue {
    fn clone(&self) -> (c: Self)
        ensures
            c@ == self@,
    {
        Clue { word: self.word.clone(), count: self.count, remaining: self.remaining }
    }
}

/// The state variable of the game's state machine.
pub enum Phase {
    /// Waiting for `team`'s spymaster to submit a clue.
    Clue { team: Team },
    /// `team`'s operative is guessing against `clue`.
    Guess { team: Team, clue: Clue },
    /// Terminal. The winner is the team that swept its cards, or the
    /// opponent of the team that revealed the assassin.
    End { winner: Option<Team> },
}

/// The mathematical value of a [`Phase`].
#[verifier::ext_equal]
pub enum PhaseV {
    Clue { team: Team },
    Guess { team: Team, clue: ClueV },
    End { winner: Option<Team> },
}

impl View for Phase {
    type V = PhaseV;

    open spec fn view(&self) -> PhaseV {
        match self {
            Phase::Clue { team } => PhaseV::Clue { team: *team },
            Phase::Guess { team, clue } => PhaseV::Guess { team: *team, clue: clue@ },
            Phase::End { winner } => PhaseV::End { winner: *winner },
        }
    }
}

impl Clone for Phase {
    fn clone(&self) -> (p: Self)
        ensures
            p@ == self@,
    {
        match self {
            Phase::Clue { team } => Phase::Clue { team: *team },
            Phase::Guess { team, clue } => Phase::Guess { team: *team, clue: clue.clone() },
            Phase::End { winner } => Phase::End { winner: *winner },
        }
    }
}

/// The views of a sequence of cards.
pub open spec fn card_views(b: Seq<Card>) -> Seq<CardV> {
    b.map_values(|c: Card| c@)
}

pub broadcast proof fn card_views_len(b: Seq<Card>)
    ensures
        (#[trigger] card_views(b)).len() == b.len(),
{
}

pub broadcast proof fn card_views_index(b: Seq<Card>, i: int)
    requires
        0 <= i < b.len(),
    ensures
        #[trigger] card_views(b)[i] == b[i]@,
{
}

pub broadcast proof fn identities_of_len(b: Seq<CardV>)
    ensures
        (#[trigger] identities_of(b)).len() == b.len(),
{
}

pub broadcast proof fn identities_of_index(b: Seq<CardV>, i: int)
    requires
        0 <= i < b.len(),
    ensures
        #[trigger] identities_of(b)[i] == b[i].identity,
{
}

pub broadcast proof fn hide_board_len(b: Seq<CardV>)
    ensures
        (#[trigger] hide_board(b)).len() == b.len(),
{
}

pub broadcast proof fn hide_board_index(b: Seq<CardV>, i: int)
    requires
        0 <= i < b.len(),
    ensures
        #[trigger] hide_board(b)[i] == hide_card(b[i]),
{
}

/// One shared board plus the current phase: the single mutable aggregate of a
/// game session.
pub struct GameState {
    board: Vec<Card>,
    phase: Phase,
}

/// The mathematical value of a [`GameState`].
#[verifier::ext_equal]
pub struct GameStateV {
    pub board: Seq<CardV>,
    pub phase: PhaseV,
}

impl View for GameState {
    type V = GameStateV;

    closed spec fn view(&self) -> GameStateV {
        GameStateV { board: card_views(self.board@), phase: self.phase@ }
    }
}

/// Whether some card of `b` carries the word `w`.
pub open spec fn has_word(b: Seq<CardV>, w: Seq<char>) -> bool {
    exists|i: int| 0 <= i < b.len() && b[i].word == w
}

/// The index of the card carrying `w`; meaningful only under [`has_word`],
/// and unique once the board's words are pairwise distinct.
pub open spec fn index_of_word(b: Seq<CardV>, w: Seq<char>) -> int {
    choose|i: int| 0 <= i < b.len() && b[i].word == w
}

/// No two cards of `b` carry the same word.
pub open spec fn distinct_words(b: Seq<CardV>) -> bool {
    forall|i: int, j: int| 0 <= i < j < b.len() ==> b[i].word != b[j].word
}

/// The identities of `b`, in board order.
pub open spec fn identities_of(b: Seq<CardV>) -> Seq<Identity> {
    b.map_values(|c: CardV| c.identity)
}

/// The fixed identity distribution of a real board: 9 Red, 8 Blue,
/// 7 Bystander, 1 Assassin, and no `Hidden` placeholder.
pub open spec fn distribution_ok(ids: Seq<Identity>) -> bool {
    let m = ids.to_multiset();
    &&& m.count(Identity::Red) == 9
    &&& m.count(Identity::Blue) == 8
    &&& m.count(Identity::Bystander) == 7
    &&& m.count(Identity::Assassin) == 1
    &&& m.count(Identity::Hidden) == 0
}

/// A well-formed board: exactly 25 cards, pairwise distinct words, and the
/// fixed identity distribution.
pub open spec fn board_wf(b: Seq<CardV>) -> bool {
    &&& b.len() == 25
    &&& distinct_words(b)
    &&& distribution_ok(identities_of(b))
}

/// Every card of `t`'s identity has been guessed.
pub open spec fn team_swept(b: Seq<CardV>, t: Team) -> bool {
    forall|i: int|
        0 <= i < b.len() && b[i].identity == t.spec_identity() ==> b[i].guessed
}

/// The winner a board decides, if any. When both teams are simultaneously
/// swept, Red is the fixed tie-break winner.
pub open spec fn spec_winner(b: Seq<CardV>) -> Option<Team> {
    if team_swept(b, Team::Red) {
        Some(Team::Red)
    } else if team_swept(b, Team::Blue) {
        Some(Team::Blue)
    } else {
        None
    }
}

/// What providing `clue` does to state `s`: rejected if the clue word sits on
/// the board or the phase is not clue-giving; otherwise the clue's team moves
/// to guessing against `clue`.
pub open spec fn spec_provide_clue(s: GameStateV, clue: ClueV) -> Result<GameStateV, GameError> {
    if has_word(s.board, clue.word) {
        Err(GameError::IllegalClueWord)
    } else {
        match s.phase {
            PhaseV::Clue { team } => Ok(
                GameStateV { board: s.board, phase: PhaseV::Guess { team, clue } },
            ),
            _ => Err(GameError::WrongPhase),
        }
    }
}

/// What guessing `w` does to state `s`. On a legal guess the card is
/// revealed, the clue's remaining allowance drops by one (never below zero),
/// and the phase resolves in this priority order: assassin ends the game for
/// the other team; a swept board ends it for the sweeping team; a wrong-color
/// reveal or an exhausted allowance passes the turn; otherwise the same team
/// keeps guessing.
pub open spec fn spec_make_guess(s: GameStateV, w: Seq<char>) -> Result<GameStateV, GameError> {
    match s.phase {
        PhaseV::Guess { team, clue } => {
            if !has_word(s.board, w) {
                Err(GameError::WordNotOnBoard)
            } else {
                let i = index_of_word(s.board, w);
                if s.board[i].guessed {
                    Err(GameError::AlreadyGuessed)
                } else {
                    let revealed = s.board[i].identity;
                    let board2 = s.board.update(
                        i,
                        CardV { word: s.board[i].word, guessed: true, identity: revealed },
                    );
                    let rem = if clue.remaining > 0 {
                        (clue.remaining - 1) as u8
                    } else {
                        0u8
                    };
                    let phase2 = if revealed == Identity::Assassin {
                        PhaseV::End { winner: Some(team.spec_other()) }
                    } else if spec_winner(board2) is Some {
                        PhaseV::End { winner: spec_winner(board2) }
                    } else if revealed != team.spec_identity() || rem == 0 {
                        PhaseV::Clue { team: team.spec_other() }
                    } else {
                        PhaseV::Guess {
                            team,
                            clue: ClueV { word: clue.word, count: clue.count, remaining: rem },
                        }
                    };
                    Ok(GameStateV { board: board2, phase: phase2 })
                }
            }
        },
        _ => Err(GameError::WrongPhase),
    }
}

/// The projection of a card for an audience that may not see unguessed
/// identities: a guessed card shows its identity, an unguessed one `Hidden`.
pub open spec fn hide_card(c: CardV) -> CardV {
    CardV {
        word: c.word,
        guessed: c.guessed,
        identity: if c.guessed {
            c.identity
        } else {
            Identity::Hidden
        },
    }
}

/// The projection of a whole board under [`hide_card`].
pub open spec fn hide_board(b: Seq<CardV>) -> Seq<CardV> {
    b.map_values(|c: CardV| hide_card(c))
}

/// Relies on `rand::seq::SliceRandom::shuffle`: a uniformly random in-place
/// permutation of the slice, so the elements are rearranged but kept.
#[verifier::external_body]
fn shuffle_identities(ids: &mut Vec<Identity>)
    ensures
        final(ids)@.to_multiset() == old(ids)@.to_multiset(),
        final(ids)@.len() == old(ids)@.len(),
{
    ids.shuffle(&mut rand::thread_rng());
}

/// The identity multiset a board is dealt from, in a fixed order:
/// 9 Red, then 8 Blue, then 7 Bystander, then the Assassin.
fn fixed_identities() -> (ids: Vec<Identity>)
    ensures
        ids@.len() == 25,
        distribution_ok(ids@),
{
    broadcast use vstd::seq_lib::group_to_multiset_ensures;
    broadcast use vstd::multiset::group_multiset_axioms;

    let mut ids: Vec<Identity> = Vec::new();
    let mut i: usize = 0;
    while i < 9
        invariant
            i <= 9,
            ids@.len() == i,
            ids@.to_multiset().count(Identity::Red) == i,
            ids@.to_multiset().count(Identity::Blue) == 0,
            ids@.to_multiset().count(Identity::Bystander) == 0,
            ids@.to_multiset().count(Identity::Assassin) == 0,
            ids@.to_multiset().count(Identity::Hidden) == 0,
        decreases 9 - i,
    {
        ids.push(Identity::Red);
        i += 1;
    }
    let mut i: usize = 0;
    while i < 8
        invariant
            i <= 8,
            ids@.len() == 9 + i,
            ids@.to_multiset().count(Identity::Red) == 9,
            ids@.to_multiset().count(Identity::Blue) == i,
            ids@.to_multiset().count(Identity::Bystander) == 0,
            ids@.to_multiset().count(Identity::Assassin) == 0,
            ids@.to_multiset().count(Identity::Hidden) == 0,
        decreases 8 - i,
    {
        ids.push(Identity::Blue);
        i += 1;
    }
    let mut i: usize = 0;
    while i < 7
        invariant
            i <= 7,
            ids@.len() == 17 + i,
            ids@.to_multiset().count(Identity::Red) == 9,
            ids@.to_multiset().count(Identity::Blue) == 8,
            ids@.to_multiset().count(Identity::Bystander) == i,
            ids@.to_multiset().count(Identity::Assassin) == 0,
            ids@.to_multiset().count(Identity::Hidden) == 0,
        decreases 7 - i,
    {
        ids.push(Identity::Bystander);
        i += 1;
    }
    ids.push(Identity::Assassin);
    ids
}

/// Looks up the first card carrying `word`.
fn find_card(board: &Vec<Card>, word: &String) -> (r: Option<usize>)
    ensures
        match r {
            Some(i) => i < board@.len() && card_views(board@)[i as int].word == word@,
            None => !has_word(card_views(board@), word@),
        },
{
    broadcast use {card_views_len, card_views_index};

    let mut i: usize = 0;
    while i < board.len()
        invariant
            i <= board@.len(),
            forall|j: int| 0 <= j < i ==> card_views(board@)[j].word != word@,
        decreases board@.len() - i,
    {
        if board[i].word == *word {
            return Some(i);
        }
        i += 1;
    }
    None
}

impl GameState {
    /// A game state whose board could have come from a real deal.
    pub open spec fn wf(&self) -> bool {
        board_wf(self@.board)
    }

    /// The shared board, in deal order.
    pub fn board(&self) -> (b: &Vec<Card>)
        ensures
            card_views(b@) == self@.board,
    {
        &self.board
    }

    /// The current phase.
    pub fn phase(&self) -> (p: &Phase)
        ensures
            p@ == self@.phase,
    {
        &self.phase
    }

    /// The active clue, present exactly while a team is guessing.
    pub fn clue(&self) -> (c: Option<&Clue>)
        ensures
            match c {
                Some(clue) => self@.phase matches PhaseV::Guess { clue: cv, .. } && clue@ == cv,
                None => !(self@.phase is Guess),
            },
    {
        match &self.phase {
            Phase::Guess { clue, .. } => Some(clue),
            _ => None,
        }
    }

    /// The team a fully swept board hands the win to, Red winning ties.
    pub fn check_win_state(&self) -> (r: Option<Team>)
        ensures
            r == spec_winner(self@.board),
    {
        broadcast use {card_views_len, card_views_index};

        let ghost b = self@.board;
        let mut red_win: bool = true;
        let mut blue_win: bool = true;
        let mut i: usize = 0;
        while i < self.board.len()
            invariant
                i <= b.len(),
                b == card_views(self.board@),
                red_win == (forall|j: int|
                    0 <= j < i && b[j].identity == Identity::Red ==> b[j].guessed),
                blue_win == (forall|j: int|
                    0 <= j < i && b[j].identity == Identity::Blue ==> b[j].guessed),
            decreases b.len() - i,
        {
            let c = &self.board[i];
            proof {
                assert(b[i as int] == self.board@[i as int]@);
            }
            if c.identity == Identity::Red && !c.guessed {
                red_win = false;
            }
            if c.identity == Identity::Blue && !c.guessed {
                blue_win = false;
            }
            i += 1;
        }
        if red_win {
            Some(Team::Red)
        } else if blue_win {
            Some(Team::Blue)
        } else {
            None
        }
    }
}

impl GameState {
    /// Deals a fresh game: the fixed identity multiset is shuffled onto the
    /// 25 supplied pairwise-distinct words, nothing starts guessed, and Red's
    /// spymaster moves first.
    pub fn new(words: Vec<String>) -> (r: GameState)
        requires
            words@.len() == 25,
            forall|i: int, j: int| 0 <= i < j < 25 ==> words@[i]@ != words@[j]@,
        ensures
            r.wf(),
            r@.phase == (PhaseV::Clue { team: Team::Red }),
            r@.board.len() == 25,
            forall|i: int|
                0 <= i < 25 ==> r@.board[i].word == words@[i]@ && !r@.board[i].guessed,
    {
        broadcast use {card_views_len, card_views_index};

        let mut ids = fixed_identities();
        shuffle_identities(&mut ids);
        let mut board: Vec<Card> = Vec::new();
        let mut i: usize = 0;
        while i < 25
            invariant
                i <= 25,
                ids@.len() == 25,
                board@.len() == i,
                forall|j: int| #![trigger board@[j]]
                    0 <= j < i ==> {
                        &&& board@[j]@.word == words@[j]@
                        &&& !board@[j]@.guessed
                        &&& board@[j]@.identity == ids@[j]
                    },
            decreases 25 - i,
        {
            board.push(Card::new(words[i].clone(), ids[i]));
            i += 1;
        }
        proof {
            broadcast use {identities_of_len, identities_of_index};

            assert forall|j: int| 0 <= j < 25 implies #[trigger] card_views(board@)[j]
                == board@[j]@ by {}
            assert(identities_of(card_views(board@)) =~= ids@);
        }
        GameState { board, phase: Phase::Clue { team: Team::Red } }
    }

    /// Accepts `clue` while its team's spymaster is due, unless the clue word
    /// sits on the board; a rejection leaves the state untouched.
    pub fn provide_clue(&mut self, clue: Clue) -> (r: Result<(), GameError>)
        requires
            old(self).wf(),
        ensures
            final(self).wf(),
            match r {
                Ok(()) => spec_provide_clue(old(self)@, clue@) == Ok::<GameStateV, GameError>(
                    final(self)@,
                ),
                Err(e) => {
                    &&& spec_provide_clue(old(self)@, clue@) == Err::<GameStateV, GameError>(e)
                    &&& final(self)@ == old(self)@
                },
            },
    {
        if find_card(&self.board, &clue.word).is_some() {
            return Err(GameError::IllegalClueWord);
        }
        match &self.phase {
            Phase::Clue { team } => {
                let team = *team;
                self.phase = Phase::Guess { team, clue };
                Ok(())
            },
            _ => Err(GameError::WrongPhase),
        }
    }

    /// Reveals the card carrying `word` while its team's operative is due.
    /// The clue's allowance drops by one (never below zero); the assassin
    /// ends the game for the other team, a sweep ends it for the sweeping
    /// team, a wrong-color reveal or an exhausted allowance passes the turn,
    /// and otherwise the same team keeps guessing. A rejection leaves the
    /// state untouched.
    pub fn make_guess(&mut self, word: String) -> (r: Result<(), GameError>)
        requires
            old(self).wf(),
        ensures
            final(self).wf(),
            match r {
                Ok(()) => spec_make_guess(old(self)@, word@) == Ok::<GameStateV, GameError>(
                    final(self)@,
                ),
                Err(e) => {
                    &&& spec_make_guess(old(self)@, word@) == Err::<GameStateV, GameError>(e)
                    &&& final(self)@ == old(self)@
                },
            },
    {
        broadcast use {card_views_len, card_views_index};

        let (team, clue_word, clue_count, clue_remaining): (Team, String, u8, u8) = match &self
            .phase {
            Phase::Guess { team, clue } => (*team, clue.word.clone(), clue.count, clue.remaining),
            _ => {
                return Err(GameError::WrongPhase);
            },
        };
        let idx = match find_card(&self.board, &word) {
            Some(i) => i,
            None => {
                return Err(GameError::WordNotOnBoard);
            },
        };
        proof {
            assert(idx == index_of_word(old(self)@.board, word@));
        }
        if self.board[idx].guessed {
            return Err(GameError::AlreadyGuessed);
        }
        let revealed = self.board[idx].identity;
        let new_card = Card {
            word: self.board[idx].word.clone(),
            guessed: true,
            identity: revealed,
        };
        self.board.set(idx, new_card);
        proof {
            assert(card_views(self.board@) =~= old(self)@.board.update(
                idx as int,
                CardV {
                    word: old(self)@.board[idx as int].word,
                    guessed: true,
                    identity: revealed,
                },
            ));
            assert(identities_of(card_views(self.board@)) =~= identities_of(old(self)@.board));
        }
        let rem: u8 = if clue_remaining > 0 {
            clue_remaining - 1
        } else {
            0
        };
        if revealed == Identity::Assassin {
            self.phase = Phase::End { winner: Some(team.other()) };
            return Ok(());
        }
        match self.check_win_state() {
            Some(t) => {
                self.phase = Phase::End { winner: Some(t) };
                Ok(())
            },
            None => {
                if rem == 0 || revealed != team.identity() {
                    self.phase = Phase::Clue { team: team.other() };
                } else {
                    self.phase = Phase::Guess {
                        team,
                        clue: Clue { word: clue_word, count: clue_count, remaining: rem },
                    };
                }
                Ok(())
            },
        }
    }

    /// The board as the guessing audience may see it: unguessed cards show
    /// `Hidden` in place of their identity.
    pub fn to_hidden_board(&self) -> (r: Vec<Card>)
        ensures
            card_views(r@) == hide_board(self@.board),
    {
        broadcast use {card_views_len, card_views_index};

        let mut hidden: Vec<Card> = Vec::new();
        let mut i: usize = 0;
        while i < self.board.len()
            invariant
                i <= self.board@.len(),
                hidden@.len() == i,
                forall|j: int| #![trigger hidden@[j]]
                    0 <= j < i ==> hidden@[j]@ == hide_card(self.board@[j]@),
            decreases self.board@.len() - i,
        {
            let c = &self.board[i];
            let identity = if c.guessed {
                c.identity
            } else {
                Identity::Hidden
            };
            hidden.push(Card { word: c.word.clone(), guessed: c.guessed, identity });
            i += 1;
        }
        proof {
            broadcast use {hide_board_len, hide_board_index};

            assert(card_views(hidden@) =~= hide_board(self@.board));
        }
        hidden
    }

    /// The whole state under the same projection: the board is hidden, the
    /// phase passes through unchanged.
    pub fn to_hidden_game_state(&self) -> (r: GameState)
        ensures
            r@.board == hide_board(self@.board),
            r@.phase == self@.phase,
    {
        GameState { board: self.to_hidden_board(), phase: self.phase.clone() }
    }
}

impl Clone for GameState {
    fn clone(&self) -> (r: Self)
        ensures
            r@ == self@,
    {
        broadcast use {card_views_len, card_views_index};

        let mut board: Vec<Card> = Vec::new();
        let mut i: usize = 0;
        while i < self.board.len()
            invariant
                i <= self.board@.len(),
                board@.len() == i,
                forall|j: int| #![trigger board@[j]]
                    0 <= j < i ==> board@[j]@ == self.board@[j]@,
            decreases self.board@.len() - i,
        {
            board.push(self.board[i].clone());
            i += 1;
        }
        proof {
            assert(card_views(board@) =~= card_views(self.board@));
        }
        GameState { board, phase: self.phase.clone() }
    }
}

} // verus!
