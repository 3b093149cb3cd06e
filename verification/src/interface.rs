//! What players and the presenter may do to the game: register, answer,
//! look at the state, and give the two presenter commands.

use crate::identity::{identity_of_text, mint_identity, parse_identity};
use crate::questions::clone_texts;
use crate::state::{
    answered, answers_wf, count_players_answered_to_question, game_wf, is_player,
    lobby_has_empty_ledgers, roster_wf, Answers, GameStage, GameState, Player, Points,
    QuestionStage, Questions,
};
use vstd::prelude::*;

verus! {

/// Why a registration was turned down.
#[derive(Clone, Copy, Debug, PartialEq, Eq, Structural)]
pub enum RegisterError {
    /// The game has left the lobby.
    GameInProgress,
    /// Another player has this name.
    AlreadyRegistered,
    /// The identity that was minted belongs to another player.
    IdentityInUse,
}

/// Why an answer, or a look at the state, was turned down.
#[derive(Clone, Copy, Debug, PartialEq, Eq, Structural)]
pub enum SubmitError {
    /// The identity is malformed or belongs to no registered player.
    InvalidIdentity,
    /// No answer window is open.
    NotAccepted,
    /// The player has answered this question before.
    AlreadyAnswered,
}

impl RegisterError {
    /// The reason as it is reported to the caller.
    pub fn reason(&self) -> (r: String)
        ensures
            r@ == match *self {
                RegisterError::GameInProgress => "Game in progress"@,
                RegisterError::AlreadyRegistered => "Player already registered"@,
                RegisterError::IdentityInUse => "Identity already in use"@,
            },
    {
        match *self {
            RegisterError::GameInProgress => String::from_str("Game in progress"),
            RegisterError::AlreadyRegistered => String::from_str("Player already registered"),
            RegisterError::IdentityInUse => String::from_str("Identity already in use"),
        }
    }
}

impl SubmitError {
    /// The reason as it is reported to the caller.
    pub fn reason(&self) -> (r: String)
        ensures
            r@ == match *self {
                SubmitError::InvalidIdentity => "Invalid UUID provided"@,
                SubmitError::NotAccepted => "Answers not accepted at this time"@,
                SubmitError::AlreadyAnswered => "This question has already been answered"@,
            },
    {
        match *self {
            SubmitError::InvalidIdentity => String::from_str("Invalid UUID provided"),
            SubmitError::NotAccepted => String::from_str("Answers not accepted at this time"),
            SubmitError::AlreadyAnswered => String::from_str(
                "This question has already been answered",
            ),
        }
    }
}

/// Whether a player of the roster has this name.
pub open spec fn name_taken(players: Seq<Player>, name: Seq<char>) -> bool {
    exists|i: int| 0 <= i < players.len() && (#[trigger] players[i]).name@ == name
}

/// Whether the ledger holds an answer of this player for this ordinal.
pub open spec fn has_answered(answers: Seq<Answers>, question_number: u64, uuid: u128) -> bool {
    exists|i: int|
        0 <= i < answers.len() && (#[trigger] answers[i]).question_number == question_number
            && answers[i].player_uuid == uuid
}

/// What becomes of a registration: the new player's identity, or the reason
/// for which it is turned down.
pub open spec fn register_verdict(
    stage: GameStage,
    players: Seq<Player>,
    name: Seq<char>,
    uuid: u128,
) -> Result<u128, RegisterError> {
    if stage != GameStage::WaitingForPlayers {
        Err(RegisterError::GameInProgress)
    } else if name_taken(players, name) {
        Err(RegisterError::AlreadyRegistered)
    } else if is_player(players, uuid) {
        Err(RegisterError::IdentityInUse)
    } else {
        Ok(uuid)
    }
}

/// What becomes of an answer: accepted, or the reason for which it is turned
/// down.
pub open spec fn submit_verdict(
    state: GameState,
    answers: Seq<Answers>,
    identity: Option<u128>,
) -> Result<(), SubmitError> {
    match identity {
        None => Err(SubmitError::InvalidIdentity),
        Some(uuid) => if !(state.game_stage == GameStage::GameInProgress && state.question_stage
            == QuestionStage::QuestionAnswerTime) {
            Err(SubmitError::NotAccepted)
        } else if !is_player(state.players@, uuid) {
            Err(SubmitError::InvalidIdentity)
        } else if has_answered(answers, state.question_number, uuid) {
            Err(SubmitError::AlreadyAnswered)
        } else {
            Ok(())
        },
    }
}

/// The roster with the last-seen time of this identity's player set to `now`.
pub open spec fn seen(players: Seq<Player>, uuid: u128, now: u64) -> Seq<Player> {
    Seq::new(
        players.len(),
        |i: int|
            if players[i].uuid == uuid {
                Player { last_seen: now, ..players[i] }
            } else {
                players[i]
            },
    )
}

/// Marking a player as seen changes no name and no identity, so the roster
/// stays free of duplicates.
pub proof fn seen_keeps_roster(players: Seq<Player>, uuid: u128, now: u64)
    requires
        roster_wf(players),
    ensures
        roster_wf(seen(players, uuid, now)),
        forall|id: u128| is_player(seen(players, uuid, now), id) == is_player(players, id),
{
    let marked = seen(players, uuid, now);
    assert forall|id: u128| is_player(marked, id) == is_player(players, id) by {
        if is_player(players, id) {
            let i = choose|i: int| 0 <= i < players.len() && (#[trigger] players[i]).uuid == id;
            assert(marked[i].uuid == id);
        }
        if is_player(marked, id) {
            let i = choose|i: int| 0 <= i < marked.len() && (#[trigger] marked[i]).uuid == id;
            assert(players[i].uuid == id);
        }
    }
}

/// A registration that is accepted leaves a game in good order.
pub proof fn registration_keeps_game(
    pre: GameState,
    post: GameState,
    ledger: Seq<Questions>,
    answers: Seq<Answers>,
    player: Player,
)
    requires
        game_wf(pre, ledger, answers),
        register_verdict(pre.game_stage, pre.players@, player.name@, player.uuid) is Ok,
        post == (GameState { players: post.players, ..pre }),
        post.players@ == pre.players@.push(player),
    ensures
        game_wf(post, ledger, answers),
{
    lobby_has_empty_ledgers(pre, ledger, answers);
    assert forall|i: int, j: int| 0 <= i < j < post.players@.len() implies post.players@[i].name@
        != post.players@[j].name@ && post.players@[i].uuid != post.players@[j].uuid by {
        if j == pre.players@.len() {
            assert(pre.players@[i].name@ != player.name@);
            assert(pre.players@[i].uuid != player.uuid);
        }
    }
}

/// An answer that is accepted leaves a game in good order.
pub proof fn answer_keeps_game(
    pre: GameState,
    post: GameState,
    ledger: Seq<Questions>,
    answers: Seq<Answers>,
    uuid: u128,
    answer: String,
    now: u64,
)
    requires
        game_wf(pre, ledger, answers),
        submit_verdict(pre, answers, Some(uuid)) is Ok,
        post == (GameState { players: post.players, ..pre }),
        post.players@ == seen(pre.players@, uuid, now),
    ensures
        game_wf(
            post,
            ledger,
            answers.push(Answers { question_number: pre.question_number, answer, player_uuid: uuid }),
        ),
{
    let record = Answers { question_number: pre.question_number, answer, player_uuid: uuid };
    let grown = answers.push(record);
    seen_keeps_roster(pre.players@, uuid, now);
    assert forall|i: int, j: int| 0 <= i < j < grown.len() implies !(grown[i].question_number
        == grown[j].question_number && grown[i].player_uuid == grown[j].player_uuid) by {
        if j == answers.len() {
            assert(!(answers[i].question_number == pre.question_number && answers[i].player_uuid
                == uuid));
        }
    }
    assert forall|k: int| 0 <= k < grown.len() implies 1 <= (#[trigger] grown[k]).question_number
        <= post.question_number && is_player(post.players@, grown[k].player_uuid) by {
        if k < answers.len() {
            assert(grown[k] == answers[k]);
            assert(is_player(pre.players@, answers[k].player_uuid));
        }
    }
}

/// Marking a player as seen leaves a game in good order.
pub proof fn seen_keeps_game(
    pre: GameState,
    post: GameState,
    ledger: Seq<Questions>,
    answers: Seq<Answers>,
    uuid: u128,
    now: u64,
)
    requires
        game_wf(pre, ledger, answers),
        post == (GameState { players: post.players, ..pre }),
        post.players@ == seen(pre.players@, uuid, now),
    ensures
        game_wf(post, ledger, answers),
{
    seen_keeps_roster(pre.players@, uuid, now);
    assert forall|k: int| 0 <= k < answers.len() implies is_player(
        post.players@,
        (#[trigger] answers[k]).player_uuid,
    ) by {
        assert(is_player(pre.players@, answers[k].player_uuid));
    }
}

/// Whether a player of the roster has this name.
pub fn find_name(players: &Vec<Player>, name: &String) -> (r: bool)
    ensures
        r == name_taken(players@, name@),
{
    let mut i: usize = 0;
    while i < players.len()
        invariant
            i <= players.len(),
            forall|j: int| 0 <= j < i ==> (#[trigger] players@[j]).name@ != name@,
        decreases players.len() - i,
    {
        if players[i].name == *name {
            return true;
        }
        i += 1;
    }
    false
}

/// Whether a player of the roster has this identity.
pub fn find_player(players: &Vec<Player>, uuid: u128) -> (r: bool)
    ensures
        r == is_player(players@, uuid),
{
    let mut i: usize = 0;
    while i < players.len()
        invariant
            i <= players.len(),
            forall|j: int| 0 <= j < i ==> (#[trigger] players@[j]).uuid != uuid,
        decreases players.len() - i,
    {
        if players[i].uuid == uuid {
            return true;
        }
        i += 1;
    }
    false
}

/// Whether the ledger holds an answer of this player for this ordinal.
pub fn find_answer(answers: &Vec<Answers>, question_number: u64, uuid: u128) -> (r: bool)
    ensures
        r == has_answered(answers@, question_number, uuid),
{
    let mut i: usize = 0;
    while i < answers.len()
        invariant
            i <= answers.len(),
            forall|j: int|
                0 <= j < i ==> !((#[trigger] answers@[j]).question_number == question_number
                    && answers@[j].player_uuid == uuid),
        decreases answers.len() - i,
    {
        if answers[i].question_number == question_number && answers[i].player_uuid == uuid {
            return true;
        }
        i += 1;
    }
    false
}

/// Sets the last-seen time of this identity's player to `now`.
pub fn touch_player(players: &mut Vec<Player>, uuid: u128, now: u64)
    ensures
        final(players)@ == seen(old(players)@, uuid, now),
{
    let mut i: usize = 0;
    while i < players.len()
        invariant
            i <= players.len(),
            players@.len() == old(players)@.len(),
            forall|j: int| 0 <= j < i ==> players@[j] == seen(old(players)@, uuid, now)[j],
            forall|j: int| i <= j < players@.len() ==> players@[j] == old(players)@[j],
        decreases players.len() - i,
    {
        if players[i].uuid == uuid {
            players[i].last_seen = now;
        }
        i += 1;
    }
    proof {
        assert(players@ =~= seen(old(players)@, uuid, now));
    }
}

/// Registers a player under an identity that was minted for them. It is
/// accepted in the lobby, for a name and an identity that no player has yet;
/// a registration that is turned down changes nothing.
pub fn register_player(state: &mut GameState, name: &String, uuid: u128, now: u64) -> (r: Result<
    u128,
    RegisterError,
>)
    ensures
        r == register_verdict(old(state).game_stage, old(state).players@, name@, uuid),
        r is Err ==> *final(state) == *old(state),
        r is Ok ==> final(state).players@ == old(state).players@.push(
            Player { name: *name, uuid, last_seen: now, score: 0 },
        ),
        *final(state) == (GameState { players: final(state).players, ..*old(state) }),
        roster_wf(old(state).players@) ==> roster_wf(final(state).players@),
        forall|ledger: Seq<Questions>, answers: Seq<Answers>| #[trigger]
            game_wf(*old(state), ledger, answers) ==> game_wf(*final(state), ledger, answers),
{
    if state.game_stage != GameStage::WaitingForPlayers {
        return Err(RegisterError::GameInProgress);
    }
    if find_name(&state.players, name) {
        return Err(RegisterError::AlreadyRegistered);
    }
    if find_player(&state.players, uuid) {
        return Err(RegisterError::IdentityInUse);
    }
    state.players.push(Player { name: name.clone(), uuid, last_seen: now, score: 0 });
    proof {
        assert forall|ledger: Seq<Questions>, answers: Seq<Answers>| #[trigger]
            game_wf(*old(state), ledger, answers) implies game_wf(*state, ledger, answers) by {
            registration_keeps_game(
                *old(state),
                *state,
                ledger,
                answers,
                Player { name: *name, uuid, last_seen: now, score: 0 },
            );
        }
    }
    Ok(uuid)
}

/// Registers a player under a freshly minted identity and returns it.
/// Whatever identity was minted, the registration went as `register_player`
/// says for it.
pub fn register_new_player(state: &mut GameState, name: &String, now: u64) -> (r: Result<
    u128,
    RegisterError,
>)
    ensures
        exists|uuid: u128|
            r == #[trigger] register_verdict(
                old(state).game_stage,
                old(state).players@,
                name@,
                uuid,
            ),
        old(state).game_stage != GameStage::WaitingForPlayers ==> r == Err::<u128, RegisterError>(
            RegisterError::GameInProgress,
        ),
        old(state).game_stage == GameStage::WaitingForPlayers && name_taken(
            old(state).players@,
            name@,
        ) ==> r == Err::<u128, RegisterError>(RegisterError::AlreadyRegistered),
        old(state).game_stage == GameStage::WaitingForPlayers && !name_taken(
            old(state).players@,
            name@,
        ) ==> r is Ok || r == Err::<u128, RegisterError>(RegisterError::IdentityInUse),
        r is Err ==> *final(state) == *old(state),
        r is Ok ==> final(state).players@ == old(state).players@.push(
            Player { name: *name, uuid: r->Ok_0, last_seen: now, score: 0 },
        ),
        *final(state) == (GameState { players: final(state).players, ..*old(state) }),
        roster_wf(old(state).players@) ==> roster_wf(final(state).players@),
        forall|ledger: Seq<Questions>, answers: Seq<Answers>| #[trigger]
            game_wf(*old(state), ledger, answers) ==> game_wf(*final(state), ledger, answers),
{
    let uuid = mint_identity();
    register_player(state, name, uuid, now)
}

/// The roster after these entrants have asked to register in the lobby, one
/// after the other.
pub open spec fn enrolled(roster: Seq<Player>, entrants: Seq<Player>) -> Seq<Player>
    decreases entrants.len(),
{
    if entrants.len() == 0 {
        roster
    } else {
        let before = enrolled(roster, entrants.drop_last());
        let entrant = entrants.last();
        if register_verdict(GameStage::WaitingForPlayers, before, entrant.name@, entrant.uuid)
            is Ok {
            before.push(entrant)
        } else {
            before
        }
    }
}

/// Entrants with distinct names, for whom distinct identities were minted,
/// are all registered: an empty roster then holds exactly them, in the order
/// in which they came.
pub proof fn distinct_entrants_all_enrol(entrants: Seq<Player>)
    requires
        roster_wf(entrants),
    ensures
        enrolled(Seq::empty(), entrants) == entrants,
        enrolled(Seq::empty(), entrants).len() == entrants.len(),
    decreases entrants.len(),
{
    if entrants.len() > 0 {
        let before = entrants.drop_last();
        distinct_entrants_all_enrol(before);
        assert(before.push(entrants.last()) =~= entrants);
    }
}

/// Whatever the entrants, the names of a roster stay pairwise distinct, and
/// so do its identities.
pub proof fn enrolled_roster_distinct(roster: Seq<Player>, entrants: Seq<Player>)
    requires
        roster_wf(roster),
    ensures
        roster_wf(enrolled(roster, entrants)),
    decreases entrants.len(),
{
    if entrants.len() > 0 {
        enrolled_roster_distinct(roster, entrants.drop_last());
    }
}

/// Takes a player's answer to the current question, given the identity that
/// was read from the request (`None` where it was malformed). An answer that
/// is turned down changes nothing; one that is accepted is appended to the
/// ledger and marks the player as seen.
pub fn submit_answer(
    state: &mut GameState,
    answers: &mut Vec<Answers>,
    identity: Option<u128>,
    answer: &String,
    now: u64,
) -> (r: Result<(), SubmitError>)
    ensures
        r == submit_verdict(*old(state), old(answers)@, identity),
        r is Err ==> *final(state) == *old(state) && final(answers)@ == old(answers)@,
        r is Ok ==> final(answers)@ == old(answers)@.push(
            Answers {
                question_number: old(state).question_number,
                answer: *answer,
                player_uuid: identity->0,
            },
        ) && final(state).players@ == seen(old(state).players@, identity->0, now),
        *final(state) == (GameState { players: final(state).players, ..*old(state) }),
        answers_wf(old(answers)@) ==> answers_wf(final(answers)@),
        roster_wf(old(state).players@) ==> roster_wf(final(state).players@),
        forall|ledger: Seq<Questions>| #[trigger]
            game_wf(*old(state), ledger, old(answers)@) ==> game_wf(
                *final(state),
                ledger,
                final(answers)@,
            ),
{
    proof {
        if identity is Some && roster_wf(old(state).players@) {
            seen_keeps_roster(old(state).players@, identity->0, now);
        }
    }
    let uuid = match identity {
        Some(uuid) => uuid,
        None => {
            return Err(SubmitError::InvalidIdentity);
        },
    };
    if !(state.game_stage == GameStage::GameInProgress && state.question_stage
        == QuestionStage::QuestionAnswerTime) {
        return Err(SubmitError::NotAccepted);
    }
    if !find_player(&state.players, uuid) {
        return Err(SubmitError::InvalidIdentity);
    }
    if find_answer(answers, state.question_number, uuid) {
        return Err(SubmitError::AlreadyAnswered);
    }
    touch_player(&mut state.players, uuid, now);
    answers.push(
        Answers { question_number: state.question_number, answer: answer.clone(), player_uuid: uuid },
    );
    proof {
        assert forall|ledger: Seq<Questions>| #[trigger]
            game_wf(*old(state), ledger, old(answers)@) implies game_wf(
            *state,
            ledger,
            answers@,
        ) by {
            answer_keeps_game(*old(state), *state, ledger, old(answers)@, uuid, *answer, now);
        }
    }
    Ok(())
}

/// Takes a player's answer to the current question, with the identity as the
/// text that the player sent.
pub fn process_answer_submit(
    state: &mut GameState,
    answers: &mut Vec<Answers>,
    uuid: &String,
    answer: &String,
    now: u64,
) -> (r: Result<(), SubmitError>)
    ensures
        r == submit_verdict(*old(state), old(answers)@, identity_of_text(uuid@)),
        r is Err ==> *final(state) == *old(state) && final(answers)@ == old(answers)@,
        r is Ok ==> final(answers)@ == old(answers)@.push(
            Answers {
                question_number: old(state).question_number,
                answer: *answer,
                player_uuid: identity_of_text(uuid@)->0,
            },
        ) && final(state).players@ == seen(
            old(state).players@,
            identity_of_text(uuid@)->0,
            now,
        ),
        *final(state) == (GameState { players: final(state).players, ..*old(state) }),
        answers_wf(old(answers)@) ==> answers_wf(final(answers)@),
        roster_wf(old(state).players@) ==> roster_wf(final(state).players@),
        forall|ledger: Seq<Questions>| #[trigger]
            game_wf(*old(state), ledger, old(answers)@) ==> game_wf(
                *final(state),
                ledger,
                final(answers)@,
            ),
{
    let identity = parse_identity(uuid.as_str());
    submit_answer(state, answers, identity, answer, now)
}

/// The number of records among the first `n` of the ledger that hold an
/// answer of this player for this ordinal.
pub open spec fn records_upto(answers: Seq<Answers>, n: nat, question_number: u64, uuid: u128) -> nat
    decreases n,
{
    if n == 0 {
        0
    } else {
        records_upto(answers, (n - 1) as nat, question_number, uuid) + if answers[n
            - 1].question_number == question_number && answers[n - 1].player_uuid == uuid {
            1nat
        } else {
            0nat
        }
    }
}

/// A ledger in which a player has no answer for an ordinal holds no record
/// of that pair.
pub proof fn unanswered_has_no_record(
    answers: Seq<Answers>,
    n: nat,
    question_number: u64,
    uuid: u128,
)
    requires
        n <= answers.len(),
        !has_answered(answers, question_number, uuid),
    ensures
        records_upto(answers, n, question_number, uuid) == 0,
    decreases n,
{
    if n > 0 {
        unanswered_has_no_record(answers, (n - 1) as nat, question_number, uuid);
        assert(!(answers[n - 1].question_number == question_number && answers[n - 1].player_uuid
            == uuid));
    }
}

/// Appending a record leaves the count over the records before it as it was.
pub proof fn records_upto_ignores_later(
    answers: Seq<Answers>,
    record: Answers,
    n: nat,
    question_number: u64,
    uuid: u128,
)
    requires
        n <= answers.len(),
    ensures
        records_upto(answers.push(record), n, question_number, uuid) == records_upto(
            answers,
            n,
            question_number,
            uuid,
        ),
    decreases n,
{
    if n > 0 {
        records_upto_ignores_later(answers, record, (n - 1) as nat, question_number, uuid);
    }
}

/// When a player's answer has been accepted, a second answer of the same
/// player to the same question is turned down as already answered, and the
/// ledger holds exactly one record of that player for that ordinal.
pub proof fn second_answer_rejected(
    state: GameState,
    later: GameState,
    answers: Seq<Answers>,
    uuid: u128,
    answer: String,
    now: u64,
)
    requires
        submit_verdict(state, answers, Some(uuid)) is Ok,
        later.game_stage == state.game_stage,
        later.question_stage == state.question_stage,
        later.question_number == state.question_number,
        later.players@ == seen(state.players@, uuid, now),
    ensures
        ({
            let record = Answers {
                question_number: state.question_number,
                answer,
                player_uuid: uuid,
            };
            &&& submit_verdict(later, answers.push(record), Some(uuid)) == Err::<(), SubmitError>(
                SubmitError::AlreadyAnswered,
            )
            &&& records_upto(
                answers.push(record),
                (answers.len() + 1) as nat,
                state.question_number,
                uuid,
            ) == 1
        }),
{
    let record = Answers { question_number: state.question_number, answer, player_uuid: uuid };
    let grown = answers.push(record);
    let i = choose|i: int|
        0 <= i < state.players@.len() && (#[trigger] state.players@[i]).uuid == uuid;
    assert(later.players@[i].uuid == uuid);
    assert(is_player(later.players@, uuid));
    assert(grown[answers.len() as int].question_number == state.question_number
        && grown[answers.len() as int].player_uuid == uuid);
    assert(has_answered(grown, state.question_number, uuid));
    unanswered_has_no_record(answers, answers.len(), state.question_number, uuid);
    records_upto_ignores_later(answers, record, answers.len(), state.question_number, uuid);
}

/// What a player sees of a round in progress.
#[derive(Clone, Debug, PartialEq)]
pub struct RoundView {
    pub answer_options: Option<Vec<String>>,
    pub question_number: u64,
    pub question_stage: QuestionStage,
    pub question_start_time: u64,
}

/// What a player sees of the game: the stage and, while a round is in
/// progress, the round.
#[derive(Clone, Debug, PartialEq)]
pub struct PlayerState {
    pub game_stage: GameStage,
    pub round: Option<RoundView>,
}

/// What the presenter sees of the game, stage by stage.
#[derive(Clone, Debug, PartialEq)]
pub enum PresenterState {
    WaitingForPlayers { num_players: usize },
    IntroducePlayers { num_players: usize, audio: Option<String>, tts_text: Option<String> },
    GameInProgress {
        question: String,
        question_stage: QuestionStage,
        question_start_time: u64,
        num_players: usize,
        num_players_answered: u64,
        answer: String,
        context: String,
        audio: Option<String>,
    },
    ResultsShow {
        num_players: usize,
        audio: Option<String>,
        tts_text: Option<String>,
        scores: Vec<Points>,
    },
}

fn clone_text(text: &Option<String>) -> (r: Option<String>)
    ensures
        r == *text,
{
    match text {
        Some(text) => Some(text.clone()),
        None => None,
    }
}

fn clone_points(lines: &Vec<Points>) -> (r: Vec<Points>)
    ensures
        r@ == lines@,
{
    let mut r: Vec<Points> = Vec::new();
    let mut i: usize = 0;
    while i < lines.len()
        invariant
            i <= lines.len(),
            r@ == lines@.subrange(0, i as int),
        decreases lines.len() - i,
    {
        r.push(Points { player_name: lines[i].player_name.clone(), points: lines[i].points });
        proof {
            assert(r@ =~= lines@.subrange(0, i + 1));
        }
        i += 1;
    }
    proof {
        assert(lines@.subrange(0, lines.len() as int) =~= lines@);
    }
    r
}

/// Whether a round view shows these answer options.
pub open spec fn shows_options(shown: Option<Vec<String>>, options: Option<Vec<String>>) -> bool {
    match (shown, options) {
        (Some(shown), Some(options)) => shown@ == options@,
        (None, None) => true,
        _ => false,
    }
}

/// Shows a player the game, given the identity that was read from the
/// request (`None` where it was malformed). A registered player is marked as
/// seen and gets the stage and, while a round is in progress, the round with
/// its answer options; any other identity is turned down and changes
/// nothing.
pub fn player_state(state: &mut GameState, identity: Option<u128>, now: u64) -> (r: Result<
    PlayerState,
    SubmitError,
>)
    ensures
        r is Ok <==> identity is Some && is_player(old(state).players@, identity->0),
        r is Err ==> r->Err_0 == SubmitError::InvalidIdentity && *final(state) == *old(state),
        r is Ok ==> final(state).players@ == seen(old(state).players@, identity->0, now),
        *final(state) == (GameState { players: final(state).players, ..*old(state) }),
        r is Ok ==> r->Ok_0.game_stage == old(state).game_stage,
        r is Ok ==> (r->Ok_0.round is Some <==> old(state).game_stage == GameStage::GameInProgress),
        r is Ok && r->Ok_0.round is Some ==> {
            let round = r->Ok_0.round->0;
            &&& shows_options(round.answer_options, old(state).question.answer_options)
            &&& round.question_number == old(state).question_number
            &&& round.question_stage == old(state).question_stage
            &&& round.question_start_time == old(state).question_start_time
        },
        roster_wf(old(state).players@) ==> roster_wf(final(state).players@),
        forall|ledger: Seq<Questions>, answers: Seq<Answers>| #[trigger]
            game_wf(*old(state), ledger, answers) ==> game_wf(*final(state), ledger, answers),
{
    proof {
        if identity is Some && roster_wf(old(state).players@) {
            seen_keeps_roster(old(state).players@, identity->0, now);
        }
    }
    let uuid = match identity {
        Some(uuid) => uuid,
        None => {
            return Err(SubmitError::InvalidIdentity);
        },
    };
    if !find_player(&state.players, uuid) {
        return Err(SubmitError::InvalidIdentity);
    }
    touch_player(&mut state.players, uuid, now);
    proof {
        assert forall|ledger: Seq<Questions>, answers: Seq<Answers>| #[trigger]
            game_wf(*old(state), ledger, answers) implies game_wf(*state, ledger, answers) by {
            seen_keeps_game(*old(state), *state, ledger, answers, uuid, now);
        }
    }
    let round = match state.game_stage {
        GameStage::GameInProgress => {
            let answer_options = match &state.question.answer_options {
                Some(options) => Some(clone_texts(options)),
                None => None,
            };
            Some(
                RoundView {
                    answer_options,
                    question_number: state.question_number,
                    question_stage: state.question_stage,
                    question_start_time: state.question_start_time,
                },
            )
        },
        _ => None,
    };
    Ok(PlayerState { game_stage: state.game_stage, round })
}

/// Shows a player the game, with the identity as the text that the player
/// sent.
pub fn get_player_state(state: &mut GameState, uuid: &String, now: u64) -> (r: Result<
    PlayerState,
    SubmitError,
>)
    ensures
        r is Ok <==> identity_of_text(uuid@) is Some && is_player(
            old(state).players@,
            identity_of_text(uuid@)->0,
        ),
        r is Err ==> r->Err_0 == SubmitError::InvalidIdentity && *final(state) == *old(state),
        r is Ok ==> final(state).players@ == seen(
            old(state).players@,
            identity_of_text(uuid@)->0,
            now,
        ),
        *final(state) == (GameState { players: final(state).players, ..*old(state) }),
        r is Ok ==> r->Ok_0.game_stage == old(state).game_stage,
        r is Ok ==> (r->Ok_0.round is Some <==> old(state).game_stage == GameStage::GameInProgress),
        r is Ok && r->Ok_0.round is Some ==> {
            let round = r->Ok_0.round->0;
            &&& shows_options(round.answer_options, old(state).question.answer_options)
            &&& round.question_number == old(state).question_number
            &&& round.question_stage == old(state).question_stage
            &&& round.question_start_time == old(state).question_start_time
        },
        roster_wf(old(state).players@) ==> roster_wf(final(state).players@),
        forall|ledger: Seq<Questions>, answers: Seq<Answers>| #[trigger]
            game_wf(*old(state), ledger, answers) ==> game_wf(*final(state), ledger, answers),
{
    let identity = parse_identity(uuid.as_str());
    player_state(state, identity, now)
}

/// Shows the presenter the game: what the stage calls for, and nothing else.
pub fn get_presenter_state(state: &GameState, answers: &Vec<Answers>) -> (r: PresenterState)
    ensures
        match state.game_stage {
            GameStage::WaitingForPlayers => r == (PresenterState::WaitingForPlayers {
                num_players: state.players@.len() as usize,
            }),
            GameStage::IntroducePlayers => r == (PresenterState::IntroducePlayers {
                num_players: state.players@.len() as usize,
                audio: state.audio,
                tts_text: state.tts_text,
            }),
            GameStage::GameInProgress => r == (PresenterState::GameInProgress {
                question: state.question.question,
                question_stage: state.question_stage,
                question_start_time: state.question_start_time,
                num_players: state.players@.len() as usize,
                num_players_answered: answered(answers@, state.question_number) as u64,
                answer: state.question.correct,
                context: state.question.context_information,
                audio: state.audio,
            }),
            GameStage::ResultsShow => {
                &&& r is ResultsShow
                &&& r->ResultsShow_num_players == state.players@.len()
                &&& r->ResultsShow_audio == state.audio
                &&& r->ResultsShow_tts_text == state.tts_text
                &&& r->scores@ == state.scores@
            },
        },
{
    match state.game_stage {
        GameStage::WaitingForPlayers => PresenterState::WaitingForPlayers {
            num_players: state.players.len(),
        },
        GameStage::IntroducePlayers => PresenterState::IntroducePlayers {
            num_players: state.players.len(),
            audio: clone_text(&state.audio),
            tts_text: clone_text(&state.tts_text),
        },
        GameStage::GameInProgress => PresenterState::GameInProgress {
            question: state.question.question.clone(),
            question_stage: state.question_stage,
            question_start_time: state.question_start_time,
            num_players: state.players.len(),
            num_players_answered: count_players_answered_to_question(
                answers,
                state.question_number,
            ),
            answer: state.question.correct.clone(),
            context: state.question.context_information.clone(),
            audio: clone_text(&state.audio),
        },
        GameStage::ResultsShow => PresenterState::ResultsShow {
            num_players: state.players.len(),
            audio: clone_text(&state.audio),
            tts_text: clone_text(&state.tts_text),
            scores: clone_points(&state.scores),
        },
    }
}

/// Takes a presenter command. "proceed" sets the advance flag and "newgame"
/// the new-game flag, and the command is handed back; any other command is
/// turned down and changes nothing.
pub fn handle_presenter_command(state: &mut GameState, command: String) -> (r: Result<
    String,
    String,
>)
    ensures
        command@ == "proceed"@ ==> r == Ok::<String, String>(command) && *final(state) == (GameState {
            proceed_flag: true,
            ..*old(state)
        }),
        command@ != "proceed"@ && command@ == "newgame"@ ==> r == Ok::<String, String>(command)
            && *final(state) == (GameState { newgame_flag: true, ..*old(state) }),
        command@ != "proceed"@ && command@ != "newgame"@ ==> r is Err && r->Err_0@
            == "Unknown command"@ && *final(state) == *old(state),
        forall|ledger: Seq<Questions>, answers: Seq<Answers>| #[trigger]
            game_wf(*old(state), ledger, answers) ==> game_wf(*final(state), ledger, answers),
{
    if command == String::from_str("proceed") {
        state.proceed_flag = true;
        Ok(command)
    } else if command == String::from_str("newgame") {
        state.newgame_flag = true;
        Ok(command)
    } else {
        Err(String::from_str("Unknown command"))
    }
}

} // verus!
