//! The controller's part in the game: at every tick it looks at the state,
//! the clock and the answers, decides whether the game moves on, and says
//! what is to be narrated for the move.

use crate::audio::AudioType;
use crate::narration::{
    announcement_text, correct_answer_and_context_announcement, decimal, decimal_text,
    get_player_names_for_tts, introduction_closing, introduction_opening, names_for_tts,
    prompt_for_player_introduction, prompt_for_winner_announcement, winner_prompt_text,
};
use crate::questions::{Question, QuestionView, Root};
use crate::scoring::{count_points, ranked, tally};
use crate::selection::{
    asked, get_new_question, only_last_resort_repeats, picked, picked_from_bank, shuffle_answers,
};
use crate::state::{
    answered, answers_wf, count_players_answered_to_question, fresh_game_wf, game_wf,
    from_bank, get_all_players, lobby_has_empty_ledgers, names, no_repeat, roster_wf, Answers, GameStage, GameState, QuestionStage, Questions,
};
use vstd::prelude::*;

verus! {

/// How long a question is introduced before the answer window opens.
pub const INTRODUCTION_WINDOW_MS: u64 = 30000;

/// How long after the start of a round the answer window closes.
pub const ANSWER_WINDOW_MS: u64 = 60000;

/// How long after the start of a round a finished question gives way.
pub const FINISHED_WINDOW_MS: u64 = 45000;

/// What the controller asks of the narration services after a tick.
#[derive(Clone, Debug, PartialEq)]
pub enum Narration {
    /// Nothing is to be narrated.
    Nothing,
    /// A text is to be generated from the prompt and then spoken once.
    Generate { prompt: String },
    /// The text is to be spoken, kept under the question's identity as the
    /// kind says.
    Speak { text: String, question_id: i64, audio_type: AudioType },
}

/// Whether more than `window` milliseconds have passed since the round
/// started.
pub open spec fn elapsed(state: GameState, now: u64, window: u64) -> bool {
    now > state.question_start_time + window
}

/// Whether every registered player has answered the current question.
pub open spec fn quorum(state: GameState, answers: Seq<Answers>) -> bool {
    answered(answers, state.question_number) == state.players@.len()
}

/// Whether the game moves on at a tick.
pub open spec fn fires(state: GameState, answers: Seq<Answers>, now: u64) -> bool {
    match state.game_stage {
        GameStage::WaitingForPlayers => state.proceed_flag,
        GameStage::IntroducePlayers => state.proceed_flag,
        GameStage::GameInProgress => match state.question_stage {
            QuestionStage::QuestionIntroduction => state.proceed_flag || elapsed(
                state,
                now,
                INTRODUCTION_WINDOW_MS,
            ),
            QuestionStage::QuestionAnswerTime => quorum(state, answers) || elapsed(
                state,
                now,
                ANSWER_WINDOW_MS,
            ),
            QuestionStage::QuestionFinished => state.proceed_flag || elapsed(
                state,
                now,
                FINISHED_WINDOW_MS,
            ),
        },
        GameStage::ResultsShow => state.newgame_flag,
    }
}

/// Whether a question from the bank was selected for the ordinal and stands
/// in the state as it is served.
pub open spec fn question_served(
    bank: Seq<Question>,
    before: Seq<Questions>,
    after: Seq<Questions>,
    question_number: u64,
    question: QuestionView,
) -> bool {
    exists|base: QuestionView|
        #[trigger] picked(bank, before, after, question_number, base) && question.serves(base)
}

/// The tick that takes the game out of the lobby: the first question is
/// selected, and the players are to be introduced.
pub open spec fn leaves_lobby(
    pre: GameState,
    post: GameState,
    bank: Seq<Question>,
    before: Seq<Questions>,
    after: Seq<Questions>,
    narration: Narration,
) -> bool {
    &&& post == (GameState {
        game_stage: GameStage::IntroducePlayers,
        proceed_flag: false,
        question_number: 1,
        question_stage: QuestionStage::QuestionIntroduction,
        question: post.question,
        ..pre
    })
    &&& question_served(bank, before, after, 1, post.question@)
    &&& narration is Generate
    &&& narration->prompt@ == introduction_opening() + names_for_tts(names(pre.players@))
        + introduction_closing()
}

/// The tick that starts the first round: the clock starts, and the question
/// is to be read out.
pub open spec fn starts_round(pre: GameState, post: GameState, now: u64, narration: Narration) -> bool {
    &&& post == (GameState {
        game_stage: GameStage::GameInProgress,
        proceed_flag: false,
        question_start_time: now,
        ..pre
    })
    &&& narration is Speak
    &&& narration->text@ == pre.question.question_tts@
    &&& narration->question_id == pre.question.id
    &&& narration->audio_type == AudioType::Question
}

/// The tick that opens the answer window.
pub open spec fn opens_window(pre: GameState, post: GameState, narration: Narration) -> bool {
    &&& post == (GameState {
        proceed_flag: false,
        question_stage: QuestionStage::QuestionAnswerTime,
        ..pre
    })
    &&& narration is Nothing
}

/// The tick that closes the answer window: the correct answer is to be read
/// out with its context.
pub open spec fn closes_window(pre: GameState, post: GameState, narration: Narration) -> bool {
    &&& post == (GameState {
        proceed_flag: false,
        question_stage: QuestionStage::QuestionFinished,
        ..pre
    })
    &&& narration is Speak
    &&& narration->text@ == announcement_text(
        pre.question.correct_tts@,
        pre.question.context_information_tts@,
    )
    &&& narration->question_id == pre.question.id
    &&& narration->audio_type == AudioType::Answer
}

/// The tick that moves on to the next question: it is selected, the clock
/// starts again, and the question is to be read out.
pub open spec fn next_question(
    pre: GameState,
    post: GameState,
    bank: Seq<Question>,
    before: Seq<Questions>,
    after: Seq<Questions>,
    now: u64,
    narration: Narration,
) -> bool {
    &&& post == (GameState {
        proceed_flag: false,
        question_number: (pre.question_number + 1) as u64,
        question_stage: QuestionStage::QuestionIntroduction,
        question_start_time: now,
        question: post.question,
        ..pre
    })
    &&& question_served(bank, before, after, post.question_number, post.question@)
    &&& narration is Speak
    &&& narration->text@ == post.question.question_tts@
    &&& narration->question_id == post.question.id
    &&& narration->audio_type == AudioType::Question
}

/// The tick that ends the game: the players are scored and ranked, and the
/// winner, if there is a player at all, is to be announced.
pub open spec fn shows_results(
    pre: GameState,
    post: GameState,
    bank: Seq<Question>,
    ledger: Seq<Questions>,
    answers: Seq<Answers>,
    narration: Narration,
) -> bool {
    &&& post == (GameState {
        game_stage: GameStage::ResultsShow,
        proceed_flag: false,
        question_number: (pre.question_number + 1) as u64,
        scores: post.scores,
        ..pre
    })
    &&& post.scores@ == ranked(tally(pre.players@, answers, ledger, bank))
    &&& if pre.players@.len() == 0 {
        narration is Nothing
    } else {
        &&& post.scores@.len() > 0
        &&& narration is Generate
        &&& narration->prompt@ == winner_prompt_text(
            post.scores@[0].player_name@,
            decimal_text(post.scores@[0].points as nat),
        )
    }
}

/// What one tick makes of the game: `pre`, `ledger` and `answers` are the
/// state and the two ledgers before it, `post`, `ledger_after` and
/// `answers_after` after it. Where nothing triggers a move, only the advance
/// flag is cleared; where a move is triggered, the rule of the stage holds.
pub open spec fn tick_outcome(
    pre: GameState,
    ledger: Seq<Questions>,
    answers: Seq<Answers>,
    bank: Seq<Question>,
    now: u64,
    post: GameState,
    ledger_after: Seq<Questions>,
    answers_after: Seq<Answers>,
    narration: Narration,
) -> bool {
    if !fires(pre, answers, now) {
        &&& post == (GameState { proceed_flag: false, ..pre })
        &&& ledger_after == ledger
        &&& answers_after == answers
        &&& narration is Nothing
    } else {
        match pre.game_stage {
            GameStage::WaitingForPlayers => {
                &&& leaves_lobby(pre, post, bank, ledger, ledger_after, narration)
                &&& answers_after == answers
            },
            GameStage::IntroducePlayers => {
                &&& starts_round(pre, post, now, narration)
                &&& ledger_after == ledger
                &&& answers_after == answers
            },
            GameStage::GameInProgress => match pre.question_stage {
                QuestionStage::QuestionIntroduction => {
                    &&& opens_window(pre, post, narration)
                    &&& ledger_after == ledger
                    &&& answers_after == answers
                },
                QuestionStage::QuestionAnswerTime => {
                    &&& closes_window(pre, post, narration)
                    &&& ledger_after == ledger
                    &&& answers_after == answers
                },
                QuestionStage::QuestionFinished => {
                    &&& answers_after == answers
                    &&& if pre.question_number >= pre.question_limit {
                        &&& shows_results(pre, post, bank, ledger, answers, narration)
                        &&& ledger_after == ledger
                    } else {
                        next_question(pre, post, bank, ledger, ledger_after, now, narration)
                    }
                },
            },
            GameStage::ResultsShow => {
                &&& post.is_fresh()
                &&& ledger_after.len() == 0
                &&& answers_after.len() == 0
                &&& narration is Nothing
            },
        }
    }
}

/// Once every registered player has answered the current question, the next
/// tick closes the answer window, however little time has passed.
pub proof fn quorum_closes_window(
    pre: GameState,
    ledger: Seq<Questions>,
    answers: Seq<Answers>,
    bank: Seq<Question>,
    now: u64,
    post: GameState,
    ledger_after: Seq<Questions>,
    answers_after: Seq<Answers>,
    narration: Narration,
)
    requires
        tick_outcome(pre, ledger, answers, bank, now, post, ledger_after, answers_after, narration),
        pre.game_stage == GameStage::GameInProgress,
        pre.question_stage == QuestionStage::QuestionAnswerTime,
        answered(answers, pre.question_number) == pre.players@.len(),
    ensures
        post.game_stage == GameStage::GameInProgress,
        post.question_stage == QuestionStage::QuestionFinished,
{
}

/// Once more than the answer window's time has passed since the round
/// started, the next tick closes the window, however few have answered.
pub proof fn timeout_closes_window(
    pre: GameState,
    ledger: Seq<Questions>,
    answers: Seq<Answers>,
    bank: Seq<Question>,
    now: u64,
    post: GameState,
    ledger_after: Seq<Questions>,
    answers_after: Seq<Answers>,
    narration: Narration,
)
    requires
        tick_outcome(pre, ledger, answers, bank, now, post, ledger_after, answers_after, narration),
        pre.game_stage == GameStage::GameInProgress,
        pre.question_stage == QuestionStage::QuestionAnswerTime,
        now > pre.question_start_time + ANSWER_WINDOW_MS,
    ensures
        post.game_stage == GameStage::GameInProgress,
        post.question_stage == QuestionStage::QuestionFinished,
{
}

/// A tick on shown results with the new-game flag set leaves a fresh game:
/// the lobby, no player, no record in either ledger, ordinal zero.
pub proof fn new_game_resets(
    pre: GameState,
    ledger: Seq<Questions>,
    answers: Seq<Answers>,
    bank: Seq<Question>,
    now: u64,
    post: GameState,
    ledger_after: Seq<Questions>,
    answers_after: Seq<Answers>,
    narration: Narration,
)
    requires
        tick_outcome(pre, ledger, answers, bank, now, post, ledger_after, answers_after, narration),
        pre.game_stage == GameStage::ResultsShow,
        pre.newgame_flag,
    ensures
        post.game_stage == GameStage::WaitingForPlayers,
        post.players@.len() == 0,
        post.question_number == 0,
        !post.newgame_flag,
        ledger_after.len() == 0,
        answers_after.len() == 0,
{
}

/// No tick leaves the advance flag set, and none brings a second answer of
/// one player for one ordinal into the answer ledger or a second player of
/// one name or identity into the roster.
pub proof fn tick_keeps_order(
    pre: GameState,
    ledger: Seq<Questions>,
    answers: Seq<Answers>,
    bank: Seq<Question>,
    now: u64,
    post: GameState,
    ledger_after: Seq<Questions>,
    answers_after: Seq<Answers>,
    narration: Narration,
)
    requires
        tick_outcome(pre, ledger, answers, bank, now, post, ledger_after, answers_after, narration),
    ensures
        !post.proceed_flag,
        answers_wf(answers) ==> answers_wf(answers_after),
        roster_wf(pre.players@) ==> roster_wf(post.players@),
{
}

/// Whether a tick selects a question: it takes the game out of the lobby, or
/// on to the next question.
pub open spec fn selects(state: GameState, answers: Seq<Answers>, now: u64) -> bool {
    &&& fires(state, answers, now)
    &&& {
        ||| state.game_stage == GameStage::WaitingForPlayers
        ||| (state.game_stage == GameStage::GameInProgress && state.question_stage
            == QuestionStage::QuestionFinished && state.question_number < state.question_limit)
    }
}

/// A tick brings a question identity into the asked-question ledger twice
/// only where it selects by the last resort. Where the question that it
/// serves was not asked before, and in every tick that selects none, a
/// ledger in which no identity stood twice stays so; and every identity that
/// a tick records is one of the bank's.
pub proof fn tick_keeps_no_repeat(
    pre: GameState,
    ledger: Seq<Questions>,
    answers: Seq<Answers>,
    bank: Seq<Question>,
    now: u64,
    post: GameState,
    ledger_after: Seq<Questions>,
    answers_after: Seq<Answers>,
    narration: Narration,
)
    requires
        tick_outcome(pre, ledger, answers, bank, now, post, ledger_after, answers_after, narration),
        selects(pre, answers, now) ==> bank.len() > 0,
    ensures
        no_repeat(ledger) && (selects(pre, answers, now) ==> !asked(ledger, post.question.id))
            ==> no_repeat(ledger_after),
        from_bank(ledger, bank) ==> from_bank(ledger_after, bank),
{
    if selects(pre, answers, now) {
        let ordinal = post.question_number;
        let base = choose|base: QuestionView|
            #[trigger] picked(bank, ledger, ledger_after, ordinal, base) && post.question@.serves(
                base,
            );
        assert(base.id == post.question.id);
        if no_repeat(ledger) {
            only_last_resort_repeats(bank, ledger, ledger_after, ordinal, base);
        }
        if from_bank(ledger, bank) {
            picked_from_bank(bank, ledger, ledger_after, ordinal, base);
        }
    } else if fires(pre, answers, now) && pre.game_stage == GameStage::ResultsShow {
        assert(ledger_after =~= Seq::empty());
    }
}

/// Every tick leaves a game in good order.
pub proof fn tick_keeps_game(
    pre: GameState,
    ledger: Seq<Questions>,
    answers: Seq<Answers>,
    bank: Seq<Question>,
    now: u64,
    post: GameState,
    ledger_after: Seq<Questions>,
    answers_after: Seq<Answers>,
    narration: Narration,
)
    requires
        tick_outcome(pre, ledger, answers, bank, now, post, ledger_after, answers_after, narration),
        game_wf(pre, ledger, answers),
        pre.question_number < u64::MAX,
    ensures
        game_wf(post, ledger_after, answers_after),
{
    tick_keeps_order(
        pre,
        ledger,
        answers,
        bank,
        now,
        post,
        ledger_after,
        answers_after,
        narration,
    );
    if fires(pre, answers, now) {
        if pre.game_stage == GameStage::WaitingForPlayers {
            lobby_has_empty_ledgers(pre, ledger, answers);
        }
        if pre.game_stage == GameStage::ResultsShow {
            fresh_game_wf(post);
            assert(ledger_after =~= Seq::empty());
            assert(answers_after =~= Seq::empty());
        }
    }
}

/// Evaluates the game once. Where nothing triggers a move, only the advance
/// flag is cleared. Where a move is triggered, the state changes as the
/// stage's rule says, and the narration for the move is returned; the
/// advance flag is cleared in any case.
pub fn controller_tick(
    state: &mut GameState,
    questions: &mut Vec<Questions>,
    answers: &mut Vec<Answers>,
    all_questions: &Root,
    now: u64,
) -> (narration: Narration)
    requires
        selects(*old(state), old(answers)@, now) ==> all_questions.questions@.len() > 0,
        old(answers)@.len() <= u32::MAX,
        old(state).question_number < u64::MAX,
    ensures
        tick_outcome(
            *old(state),
            old(questions)@,
            old(answers)@,
            all_questions.questions@,
            now,
            *final(state),
            final(questions)@,
            final(answers)@,
            narration,
        ),
        !final(state).proceed_flag,
        answers_wf(old(answers)@) ==> answers_wf(final(answers)@),
        roster_wf(old(state).players@) ==> roster_wf(final(state).players@),
        game_wf(*old(state), old(questions)@, old(answers)@) ==> game_wf(
            *final(state),
            final(questions)@,
            final(answers)@,
        ),
        from_bank(old(questions)@, all_questions.questions@) ==> from_bank(
            final(questions)@,
            all_questions.questions@,
        ),
{
    let narration = tick(state, questions, answers, all_questions, now);
    proof {
        tick_keeps_no_repeat(
            *old(state),
            old(questions)@,
            old(answers)@,
            all_questions.questions@,
            now,
            *state,
            questions@,
            answers@,
            narration,
        );
        tick_keeps_order(
            *old(state),
            old(questions)@,
            old(answers)@,
            all_questions.questions@,
            now,
            *state,
            questions@,
            answers@,
            narration,
        );
        if game_wf(*old(state), old(questions)@, old(answers)@) {
            tick_keeps_game(
                *old(state),
                old(questions)@,
                old(answers)@,
                all_questions.questions@,
                now,
                *state,
                questions@,
                answers@,
                narration,
            );
        }
    }
    narration
}

fn tick(
    state: &mut GameState,
    questions: &mut Vec<Questions>,
    answers: &mut Vec<Answers>,
    all_questions: &Root,
    now: u64,
) -> (narration: Narration)
    requires
        selects(*old(state), old(answers)@, now) ==> all_questions.questions@.len() > 0,
        old(answers)@.len() <= u32::MAX,
        old(state).question_number < u64::MAX,
    ensures
        tick_outcome(
            *old(state),
            old(questions)@,
            old(answers)@,
            all_questions.questions@,
            now,
            *final(state),
            final(questions)@,
            final(answers)@,
            narration,
        ),
{
    match state.game_stage {
        GameStage::WaitingForPlayers => {
            if state.proceed_flag {
                state.game_stage = GameStage::IntroducePlayers;
                state.proceed_flag = false;
                state.question_number = 1;
                let question = get_new_question(all_questions, questions, 1);
                let options = shuffle_answers(&question);
                let ghost base = question@;
                state.question = question;
                state.question.answer_options = Some(options);
                state.question_stage = QuestionStage::QuestionIntroduction;
                proof {
                    assert(state.question@.serves(base));
                }
                let prompt = prompt_for_player_introduction(
                    get_player_names_for_tts(get_all_players(state)),
                );
                return Narration::Generate { prompt };
            }
        },
        GameStage::IntroducePlayers => {
            if state.proceed_flag {
                state.proceed_flag = false;
                state.game_stage = GameStage::GameInProgress;
                state.question_start_time = now;
                return Narration::Speak {
                    text: state.question.question_tts.clone(),
                    question_id: state.question.id,
                    audio_type: AudioType::Question,
                };
            }
        },
        GameStage::GameInProgress => match state.question_stage {
            QuestionStage::QuestionIntroduction => {
                if state.proceed_flag || has_elapsed(state, now, INTRODUCTION_WINDOW_MS) {
                    state.proceed_flag = false;
                    state.question_stage = QuestionStage::QuestionAnswerTime;
                }
            },
            QuestionStage::QuestionAnswerTime => {
                state.proceed_flag = false;
                if has_quorum(state, answers) || has_elapsed(state, now, ANSWER_WINDOW_MS) {
                    state.question_stage = QuestionStage::QuestionFinished;
                    return Narration::Speak {
                        text: correct_answer_and_context_announcement(
                            &state.question.correct_tts,
                            &state.question.context_information_tts,
                        ),
                        question_id: state.question.id,
                        audio_type: AudioType::Answer,
                    };
                }
            },
            QuestionStage::QuestionFinished => {
                if state.proceed_flag || has_elapsed(state, now, FINISHED_WINDOW_MS) {
                    state.proceed_flag = false;
                    let finished = state.question_number >= state.question_limit;
                    state.question_number = state.question_number + 1;
                    if finished {
                        state.game_stage = GameStage::ResultsShow;
                        let scores = match count_points(all_questions, state, questions, answers) {
                            Some(scores) => scores,
                            None => Vec::new(),
                        };
                        let narration = if scores.len() > 0 {
                            let prompt = prompt_for_winner_announcement(
                                scores[0].player_name.clone(),
                                decimal(widen(scores[0].points)),
                            );
                            Narration::Generate { prompt }
                        } else {
                            Narration::Nothing
                        };
                        state.scores = scores;
                        return narration;
                    } else {
                        let question = get_new_question(
                            all_questions,
                            questions,
                            state.question_number,
                        );
                        let options = shuffle_answers(&question);
                        let ghost base = question@;
                        state.question = question;
                        state.question.answer_options = Some(options);
                        state.question_stage = QuestionStage::QuestionIntroduction;
                        state.question_start_time = now;
                        proof {
                            assert(state.question@.serves(base));
                        }
                        return Narration::Speak {
                            text: state.question.question_tts.clone(),
                            question_id: state.question.id,
                            audio_type: AudioType::Question,
                        };
                    }
                }
            },
        },
        GameStage::ResultsShow => {
            if state.newgame_flag {
                *state = GameState::new();
                questions.clear();
                answers.clear();
            } else {
                state.proceed_flag = false;
            }
        },
    }
    Narration::Nothing
}

fn widen(points: u32) -> (r: u64)
    ensures
        r == points,
{
    points as u64
}

/// Whether a tick at this time will select a question, for which the bank
/// must hold one.
pub fn will_select(state: &GameState, answers: &Vec<Answers>, now: u64) -> (r: bool)
    ensures
        r == selects(*state, answers@, now),
{
    match state.game_stage {
        GameStage::WaitingForPlayers => state.proceed_flag,
        GameStage::GameInProgress => match state.question_stage {
            QuestionStage::QuestionFinished => (state.proceed_flag || has_elapsed(
                state,
                now,
                FINISHED_WINDOW_MS,
            )) && state.question_number < state.question_limit,
            _ => false,
        },
        _ => false,
    }
}

/// Whether more than `window` milliseconds have passed since the round
/// started.
pub fn has_elapsed(state: &GameState, now: u64, window: u64) -> (r: bool)
    ensures
        r == elapsed(*state, now, window),
{
    now > state.question_start_time && now - state.question_start_time > window
}

/// Whether every registered player has answered the current question.
pub fn has_quorum(state: &GameState, answers: &Vec<Answers>) -> (r: bool)
    ensures
        r == quorum(*state, answers@),
{
    let count = count_players_answered_to_question(answers, state.question_number);
    let players: usize = state.players.len();
    count == players as u64
}

/// Takes in what the narration services made of a request. A generated
/// narration stands in the state only where both the text and its speech
/// were made; otherwise both are absent. Speech for a text stands as it
/// came, absent where it failed, and the round's clock starts again once a
/// question has been read out.
pub fn finish_narration(
    state: &mut GameState,
    request: &Narration,
    text: Option<String>,
    audio: Option<String>,
    now: u64,
)
    ensures
        forall|ledger: Seq<Questions>, answers: Seq<Answers>| #[trigger]
            game_wf(*old(state), ledger, answers) ==> game_wf(*final(state), ledger, answers),
        match *request {
            Narration::Nothing => *final(state) == *old(state),
            Narration::Generate { .. } => *final(state) == (GameState {
                tts_text: if text is Some && audio is Some {
                    text
                } else {
                    None
                },
                audio: if text is Some && audio is Some {
                    audio
                } else {
                    None
                },
                ..*old(state)
            }),
            Narration::Speak { audio_type, .. } => *final(state) == (GameState {
                audio: audio,
                question_start_time: if audio_type == AudioType::Question {
                    now
                } else {
                    old(state).question_start_time
                },
                ..*old(state)
            }),
        },
{
    match request {
        Narration::Nothing => {},
        Narration::Generate { .. } => {
            if text.is_some() && audio.is_some() {
                state.tts_text = text;
                state.audio = audio;
            } else {
                state.tts_text = None;
                state.audio = None;
            }
        },
        Narration::Speak { audio_type, .. } => {
            state.audio = audio;
            if *audio_type == AudioType::Question {
                state.question_start_time = now;
            }
        },
    }
}

} // verus!
