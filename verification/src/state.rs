//! The single authoritative game state and the two ledgers beside it.

use crate::questions::Question;
use vstd::prelude::*;

verus! {

/// A registered player. The identity is the 128-bit value of the token that
/// was minted at registration.
#[derive(Clone, Debug, PartialEq)]
pub struct Player {
    pub name: String,
    pub uuid: u128,
    pub last_seen: u64,
    pub score: i32,
}

/// The phase of one question within a round in progress.
#[derive(Clone, Copy, Debug, PartialEq, Eq, Structural)]
pub enum QuestionStage {
    QuestionIntroduction,
    QuestionAnswerTime,
    QuestionFinished,
}

/// The phase of the game as a whole.
#[derive(Clone, Copy, Debug, PartialEq, Eq, Structural)]
pub enum GameStage {
    WaitingForPlayers,
    IntroducePlayers,
    GameInProgress,
    ResultsShow,
}

/// One line of the final results.
#[derive(Clone, Debug, PartialEq)]
pub struct Points {
    pub player_name: String,
    pub points: u32,
}

/// Everything about the running game that both actors share.
#[derive(Debug, PartialEq)]
pub struct GameState {
    pub game_stage: GameStage,
    pub question: Question,
    pub question_number: u64,
    pub question_stage: QuestionStage,
    pub question_start_time: u64,
    pub question_limit: u64,
    pub players: Vec<Player>,
    pub proceed_flag: bool,
    pub newgame_flag: bool,
    pub audio: Option<String>,
    pub tts_text: Option<String>,
    pub scores: Vec<Points>,
}

/// A record of which question was served at which ordinal.
#[derive(Clone, Debug, PartialEq)]
pub struct Questions {
    pub question_number: u64,
    pub question_id: i64,
}

/// A record of what one player answered at one ordinal.
#[derive(Clone, Debug, PartialEq)]
pub struct Answers {
    pub question_number: u64,
    pub answer: String,
    pub player_uuid: u128,
}

/// The number of rounds that a fresh game is configured with.
pub const DEFAULT_QUESTION_LIMIT: u64 = 5;

impl QuestionStage {
    /// The stage's name as clients see it.
    pub fn name(&self) -> (r: String)
        ensures
            r@ == match *self {
                QuestionStage::QuestionIntroduction => "QuestionIntroduction"@,
                QuestionStage::QuestionAnswerTime => "QuestionAnswerTime"@,
                QuestionStage::QuestionFinished => "QuestionFinished"@,
            },
    {
        match *self {
            QuestionStage::QuestionIntroduction => String::from_str("QuestionIntroduction"),
            QuestionStage::QuestionAnswerTime => String::from_str("QuestionAnswerTime"),
            QuestionStage::QuestionFinished => String::from_str("QuestionFinished"),
        }
    }
}

impl GameStage {
    /// The stage's name as clients see it.
    pub fn name(&self) -> (r: String)
        ensures
            r@ == match *self {
                GameStage::WaitingForPlayers => "WaitingForPlayers"@,
                GameStage::IntroducePlayers => "IntroducePlayers"@,
                GameStage::GameInProgress => "GameInProgress"@,
                GameStage::ResultsShow => "ResultsShow"@,
            },
    {
        match *self {
            GameStage::WaitingForPlayers => String::from_str("WaitingForPlayers"),
            GameStage::IntroducePlayers => String::from_str("IntroducePlayers"),
            GameStage::GameInProgress => String::from_str("GameInProgress"),
            GameStage::ResultsShow => String::from_str("ResultsShow"),
        }
    }
}

/// No two players of the roster share a name, and no two share an identity.
pub open spec fn roster_wf(players: Seq<Player>) -> bool {
    forall|i: int, j: int|
        0 <= i < j < players.len() ==> players[i].name@ != players[j].name@ && players[i].uuid
            != players[j].uuid
}

/// No question identity stands twice in the asked-question ledger.
pub open spec fn no_repeat(ledger: Seq<Questions>) -> bool {
    forall|i: int, j: int|
        0 <= i < j < ledger.len() ==> ledger[i].question_id != ledger[j].question_id
}

/// Whether the bank holds a question with this identity.
pub open spec fn in_bank(bank: Seq<Question>, id: i64) -> bool {
    exists|i: int| 0 <= i < bank.len() && (#[trigger] bank[i]).id == id
}

/// Every identity in the asked-question ledger is that of a question of the
/// bank.
pub open spec fn from_bank(ledger: Seq<Questions>, bank: Seq<Question>) -> bool {
    forall|k: int| 0 <= k < ledger.len() ==> in_bank(bank, (#[trigger] ledger[k]).question_id)
}

/// The asked-question ledger holds one record for each ordinal from one up,
/// in their order.
pub open spec fn ledger_wf(ledger: Seq<Questions>) -> bool {
    forall|k: int| 0 <= k < ledger.len() ==> (#[trigger] ledger[k]).question_number == k + 1
}

/// No player has two records for one ordinal in the answer ledger.
pub open spec fn answers_wf(answers: Seq<Answers>) -> bool {
    forall|i: int, j: int|
        0 <= i < j < answers.len() ==> !(answers[i].question_number == answers[j].question_number
            && answers[i].player_uuid == answers[j].player_uuid)
}

/// Whether a player of the roster has this identity.
pub open spec fn is_player(players: Seq<Player>, uuid: u128) -> bool {
    exists|i: int| 0 <= i < players.len() && (#[trigger] players[i]).uuid == uuid
}

/// The number of questions that have been asked when the game is in this
/// state: the ordinal, but for shown results, where the ordinal has moved
/// one past the last question.
pub open spec fn asked_so_far(state: GameState) -> int {
    if state.game_stage == GameStage::ResultsShow {
        state.question_number - 1
    } else {
        state.question_number as int
    }
}

/// Whether a state and the two ledgers beside it make up a game in good
/// order. The roster and the answer ledger are free of duplicates; the
/// ordinal is zero in the lobby and at least one after it; the
/// asked-question ledger holds one record for each question asked so far,
/// under the ordinals from one up; and every answer is a registered
/// player's, to a question that was asked. In the lobby both ledgers are
/// therefore empty.
pub open spec fn game_wf(state: GameState, ledger: Seq<Questions>, answers: Seq<Answers>) -> bool {
    &&& roster_wf(state.players@)
    &&& ledger_wf(ledger)
    &&& answers_wf(answers)
    &&& state.game_stage == GameStage::WaitingForPlayers ==> state.question_number == 0
    &&& state.game_stage != GameStage::WaitingForPlayers ==> state.question_number >= 1
    &&& ledger.len() == asked_so_far(state)
    &&& forall|k: int|
        0 <= k < answers.len() ==> 1 <= (#[trigger] answers[k]).question_number <= ledger.len()
            && is_player(state.players@, answers[k].player_uuid)
}

/// A fresh state with two empty ledgers is a game in good order.
pub proof fn fresh_game_wf(state: GameState)
    requires
        state.is_fresh(),
    ensures
        game_wf(state, Seq::empty(), Seq::empty()),
{
}

/// In the lobby of a game in good order both ledgers are empty.
pub proof fn lobby_has_empty_ledgers(
    state: GameState,
    ledger: Seq<Questions>,
    answers: Seq<Answers>,
)
    requires
        game_wf(state, ledger, answers),
        state.game_stage == GameStage::WaitingForPlayers,
    ensures
        ledger.len() == 0,
        answers.len() == 0,
{
    if ledger.len() > 0 {
        assert(ledger[0].question_number >= 1);
    }
    if answers.len() > 0 {
        assert(answers[0].question_number >= 1);
    }
}

/// The names of the roster, in its order.
pub open spec fn names(players: Seq<Player>) -> Seq<String> {
    Seq::new(players.len(), |i: int| players[i].name)
}

/// The number of records among the first `n` of the ledger that answer this
/// ordinal.
pub open spec fn answered_upto(answers: Seq<Answers>, n: nat, question_number: u64) -> nat
    decreases n,
{
    if n == 0 {
        0
    } else {
        answered_upto(answers, (n - 1) as nat, question_number) + if answers[n
            - 1].question_number == question_number {
            1nat
        } else {
            0nat
        }
    }
}

/// The number of answers that the ledger holds for this ordinal.
pub open spec fn answered(answers: Seq<Answers>, question_number: u64) -> nat {
    answered_upto(answers, answers.len(), question_number)
}

/// The number of answers that the ledger holds for an ordinal.
pub fn count_players_answered_to_question(answers: &Vec<Answers>, question_number: u64) -> (r: u64)
    ensures
        r == answered(answers@, question_number),
{
    let mut num_answered: u64 = 0;
    let mut k: usize = 0;
    while k < answers.len()
        invariant
            k <= answers.len(),
            num_answered == answered_upto(answers@, k as nat, question_number),
            num_answered <= k,
        decreases answers.len() - k,
    {
        if answers[k].question_number == question_number {
            num_answered += 1;
        }
        k += 1;
    }
    num_answered
}

/// The names of all registered players, in the order of registration.
pub fn get_all_players(game_state: &GameState) -> (r: Vec<String>)
    ensures
        r@ == names(game_state.players@),
{
    let mut players: Vec<String> = Vec::new();
    let mut i: usize = 0;
    while i < game_state.players.len()
        invariant
            i <= game_state.players.len(),
            players@.len() == i,
            forall|j: int| 0 <= j < i ==> players@[j] == game_state.players@[j].name,
        decreases game_state.players.len() - i,
    {
        players.push(game_state.players[i].name.clone());
        i += 1;
    }
    proof {
        assert(players@ =~= names(game_state.players@));
    }
    players
}

impl GameState {
    /// Whether this is the state in which every game starts.
    pub open spec fn is_fresh(&self) -> bool {
        &&& self.game_stage == GameStage::WaitingForPlayers
        &&& self.question@ == Question::blank_view()
        &&& self.question_number == 0
        &&& self.question_stage == QuestionStage::QuestionIntroduction
        &&& self.question_start_time == 0
        &&& self.question_limit == DEFAULT_QUESTION_LIMIT
        &&& self.players@.len() == 0
        &&& !self.proceed_flag
        &&& !self.newgame_flag
        &&& self.audio is None
        &&& self.tts_text is None
        &&& self.scores@.len() == 0
    }

    /// The state in which every game starts: the lobby, with nothing recorded.
    pub fn new() -> (r: GameState)
        ensures
            r.is_fresh(),
            game_wf(r, Seq::empty(), Seq::empty()),
    {
        GameState {
            game_stage: GameStage::WaitingForPlayers,
            question: Question::blank(),
            question_number: 0,
            question_stage: QuestionStage::QuestionIntroduction,
            question_start_time: 0,
            question_limit: DEFAULT_QUESTION_LIMIT,
            players: Vec::new(),
            proceed_flag: false,
            newgame_flag: false,
            audio: None,
            tts_text: None,
            scores: Vec::new(),
        }
    }
}

} // verus!
