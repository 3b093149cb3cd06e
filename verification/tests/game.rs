use pubiq::audio::{cached_audio_name, one_shot_audio_name, AudioType};
use pubiq::controller::{
    controller_tick, finish_narration, has_elapsed, has_quorum, will_select, Narration,
    ANSWER_WINDOW_MS, FINISHED_WINDOW_MS, INTRODUCTION_WINDOW_MS,
};
use pubiq::generation::{generated_text, Content, Part};
use pubiq::identity::identity_token;
use pubiq::interface::{
    get_player_state, get_presenter_state, handle_presenter_command, player_state,
    process_answer_submit, register_new_player, register_player, submit_answer, PresenterState,
    RegisterError, SubmitError,
};
use pubiq::narration::{
    correct_answer_and_context_announcement, decimal, get_player_names_for_tts,
    prompt_for_player_introduction, prompt_for_winner_announcement, signed_decimal,
};
use pubiq::questions::{Metadata, Question, Root};
use pubiq::scoring::{
    count_player_points, count_points, find_correct_answer, find_question_id,
    get_correct_answer_for_question_id, get_question_id_for_question_number, is_correct,
    sort_results_by_points, UNKNOWN_QUESTION_ID,
};
use pubiq::selection::{
    accept_draw, already_asked, get_new_question, newest_repeats, shuffle_answers,
};
use pubiq::state::{
    count_players_answered_to_question, get_all_players, Answers, GameStage, GameState, Player,
    Points, QuestionStage, Questions,
};

fn question(id: i64, text: &str, correct: &str) -> Question {
    Question {
        id,
        category: vec!["general".to_string()],
        question: text.to_string(),
        question_tts: format!("{} (spoken)", text),
        context_information: format!("About {}", correct),
        context_information_tts: format!("About {} (spoken)", correct),
        correct: correct.to_string(),
        correct_tts: format!("{} (spoken)", correct),
        incorrect_1: format!("not {} 1", correct),
        incorrect_2: format!("not {} 2", correct),
        incorrect_3: format!("not {} 3", correct),
        answer_options: None,
    }
}

fn bank(n: i64) -> Root {
    let mut questions = Vec::new();
    for id in 0..n {
        questions.push(question(id, &format!("Question {}?", id), &format!("Answer {}", id)));
    }
    Root { metadata: Metadata { author: "tester".to_string(), time: 0 }, questions }
}

fn player(name: &str, uuid: u128) -> Player {
    Player { name: name.to_string(), uuid, last_seen: 0, score: 0 }
}

fn answer(question_number: u64, uuid: u128, text: &str) -> Answers {
    Answers { question_number, answer: text.to_string(), player_uuid: uuid }
}

fn line(name: &str, points: u32) -> Points {
    Points { player_name: name.to_string(), points }
}

fn token(uuid: u128) -> String {
    identity_token(uuid)
}

fn sorted(mut texts: Vec<String>) -> Vec<String> {
    texts.sort();
    texts
}

/// A game with the given players that has reached the answer window of its first question.
fn in_answer_window(root: &Root, names: &[&str]) -> (GameState, Vec<Questions>, Vec<Answers>, Vec<u128>) {
    let mut state = GameState::new();
    let mut questions = Vec::new();
    let mut answers = Vec::new();
    let mut ids = Vec::new();
    for name in names {
        ids.push(register_new_player(&mut state, &name.to_string(), 5).unwrap());
    }
    state.proceed_flag = true;
    controller_tick(&mut state, &mut questions, &mut answers, root, 10);
    state.proceed_flag = true;
    controller_tick(&mut state, &mut questions, &mut answers, root, 1000);
    state.proceed_flag = true;
    controller_tick(&mut state, &mut questions, &mut answers, root, 1000);
    assert_eq!(state.game_stage, GameStage::GameInProgress);
    assert_eq!(state.question_stage, QuestionStage::QuestionAnswerTime);
    (state, questions, answers, ids)
}

#[test]
fn fresh_state_is_the_lobby() {
    let state = GameState::new();
    assert_eq!(state.game_stage, GameStage::WaitingForPlayers);
    assert_eq!(state.question_stage, QuestionStage::QuestionIntroduction);
    assert_eq!(state.question_number, 0);
    assert_eq!(state.question_start_time, 0);
    assert_eq!(state.question_limit, 5);
    assert!(state.players.is_empty());
    assert!(!state.proceed_flag);
    assert!(!state.newgame_flag);
    assert_eq!(state.audio, None);
    assert_eq!(state.tts_text, None);
    assert!(state.scores.is_empty());
    assert_eq!(state.question, Question::blank());
    assert_eq!(state.question.id, 0);
    assert_eq!(state.question.answer_options, None);
}

#[test]
fn stage_names() {
    assert_eq!(GameStage::WaitingForPlayers.name(), "WaitingForPlayers");
    assert_eq!(GameStage::IntroducePlayers.name(), "IntroducePlayers");
    assert_eq!(GameStage::GameInProgress.name(), "GameInProgress");
    assert_eq!(GameStage::ResultsShow.name(), "ResultsShow");
    assert_eq!(QuestionStage::QuestionIntroduction.name(), "QuestionIntroduction");
    assert_eq!(QuestionStage::QuestionAnswerTime.name(), "QuestionAnswerTime");
    assert_eq!(QuestionStage::QuestionFinished.name(), "QuestionFinished");
}

#[test]
fn registrations_with_distinct_names_fill_the_roster() {
    let mut state = GameState::new();
    let names = ["Aino", "Bertil", "Cecilia", "David", "Eero"];
    let mut ids = Vec::new();
    for name in names {
        ids.push(register_new_player(&mut state, &name.to_string(), 42).unwrap());
    }
    assert_eq!(state.players.len(), 5);
    for i in 0..ids.len() {
        assert_eq!(state.players[i].name, names[i]);
        assert_eq!(state.players[i].uuid, ids[i]);
        assert_eq!(state.players[i].last_seen, 42);
        assert_eq!(state.players[i].score, 0);
        for j in (i + 1)..ids.len() {
            assert_ne!(ids[i], ids[j]);
        }
    }
    assert_eq!(get_all_players(&state), vec!["Aino", "Bertil", "Cecilia", "David", "Eero"]);
}

#[test]
fn minted_identities_are_version_four_uuids() {
    let mut state = GameState::new();
    let id = register_new_player(&mut state, &"Aino".to_string(), 0).unwrap();
    assert_eq!(uuid::Uuid::from_u128(id).get_version_num(), 4);
}

#[test]
fn registration_rejects_a_duplicate_name() {
    let mut state = GameState::new();
    register_new_player(&mut state, &"Aino".to_string(), 1).unwrap();
    let before = state.players.clone();
    assert_eq!(
        register_new_player(&mut state, &"Aino".to_string(), 2),
        Err(RegisterError::AlreadyRegistered)
    );
    assert_eq!(state.players, before);
    assert_eq!(RegisterError::AlreadyRegistered.reason(), "Player already registered");
}

#[test]
fn registration_rejects_an_identity_in_use() {
    let mut state = GameState::new();
    assert_eq!(register_player(&mut state, &"Aino".to_string(), 7, 1), Ok(7));
    assert_eq!(
        register_player(&mut state, &"Bertil".to_string(), 7, 2),
        Err(RegisterError::IdentityInUse)
    );
    assert_eq!(state.players.len(), 1);
    assert_eq!(register_player(&mut state, &"Bertil".to_string(), 8, 3), Ok(8));
    assert_eq!(state.players, vec![
        Player { name: "Aino".to_string(), uuid: 7, last_seen: 1, score: 0 },
        Player { name: "Bertil".to_string(), uuid: 8, last_seen: 3, score: 0 },
    ]);
    assert_eq!(RegisterError::IdentityInUse.reason(), "Identity already in use");
}

#[test]
fn registration_is_closed_outside_the_lobby() {
    for stage in [GameStage::IntroducePlayers, GameStage::GameInProgress, GameStage::ResultsShow] {
        let mut state = GameState::new();
        state.game_stage = stage;
        assert_eq!(
            register_new_player(&mut state, &"Aino".to_string(), 1),
            Err(RegisterError::GameInProgress)
        );
        assert!(state.players.is_empty());
    }
    assert_eq!(RegisterError::GameInProgress.reason(), "Game in progress");
}

#[test]
fn second_answer_for_the_same_question_is_rejected() {
    let root = bank(3);
    let (mut state, _questions, mut answers, ids) = in_answer_window(&root, &["Aino", "Bertil"]);
    let aino = token(ids[0]);
    assert_eq!(
        process_answer_submit(&mut state, &mut answers, &aino, &"first".to_string(), 2000),
        Ok(())
    );
    assert_eq!(state.players[0].last_seen, 2000);
    assert_eq!(state.players[1].last_seen, 5);
    let players_before = state.players.clone();
    assert_eq!(
        process_answer_submit(&mut state, &mut answers, &aino, &"second".to_string(), 3000),
        Err(SubmitError::AlreadyAnswered)
    );
    assert_eq!(state.players, players_before);
    assert_eq!(answers, vec![answer(1, ids[0], "first")]);
    assert_eq!(
        SubmitError::AlreadyAnswered.reason(),
        "This question has already been answered"
    );
}

#[test]
fn answer_with_a_malformed_identity_is_rejected() {
    let root = bank(3);
    let (mut state, _questions, mut answers, _ids) = in_answer_window(&root, &["Aino"]);
    let players_before = state.players.clone();
    assert_eq!(
        process_answer_submit(
            &mut state,
            &mut answers,
            &"not-a-uuid".to_string(),
            &"x".to_string(),
            2000
        ),
        Err(SubmitError::InvalidIdentity)
    );
    assert_eq!(
        submit_answer(&mut state, &mut answers, None, &"x".to_string(), 2000),
        Err(SubmitError::InvalidIdentity)
    );
    assert!(answers.is_empty());
    assert_eq!(state.players, players_before);
    assert_eq!(SubmitError::InvalidIdentity.reason(), "Invalid UUID provided");
}

#[test]
fn answer_of_an_unregistered_identity_is_rejected() {
    let root = bank(3);
    let (mut state, _questions, mut answers, ids) = in_answer_window(&root, &["Aino"]);
    let stranger = ids[0].wrapping_add(1);
    assert_eq!(
        process_answer_submit(&mut state, &mut answers, &token(stranger), &"x".to_string(), 9),
        Err(SubmitError::InvalidIdentity)
    );
    assert!(answers.is_empty());
}

#[test]
fn answers_are_only_taken_in_the_answer_window() {
    let mut state = GameState::new();
    let mut answers = Vec::new();
    let id = register_new_player(&mut state, &"Aino".to_string(), 1).unwrap();
    let stages = [
        (GameStage::WaitingForPlayers, QuestionStage::QuestionAnswerTime),
        (GameStage::IntroducePlayers, QuestionStage::QuestionAnswerTime),
        (GameStage::ResultsShow, QuestionStage::QuestionAnswerTime),
        (GameStage::GameInProgress, QuestionStage::QuestionIntroduction),
        (GameStage::GameInProgress, QuestionStage::QuestionFinished),
    ];
    for (game_stage, question_stage) in stages {
        state.game_stage = game_stage;
        state.question_stage = question_stage;
        assert_eq!(
            process_answer_submit(&mut state, &mut answers, &token(id), &"x".to_string(), 50),
            Err(SubmitError::NotAccepted)
        );
        assert!(answers.is_empty());
        assert_eq!(state.players[0].last_seen, 1);
    }
    assert_eq!(SubmitError::NotAccepted.reason(), "Answers not accepted at this time");
}

#[test]
fn identity_text_is_read_in_any_case_of_letters() {
    let root = bank(3);
    let (mut state, _questions, mut answers, ids) = in_answer_window(&root, &["Aino"]);
    let upper = token(ids[0]).to_uppercase();
    assert_eq!(
        process_answer_submit(&mut state, &mut answers, &upper, &"x".to_string(), 9),
        Ok(())
    );
    assert_eq!(answers, vec![answer(1, ids[0], "x")]);
}

#[test]
fn quorum_closes_the_answer_window_at_once() {
    let root = bank(3);
    let (mut state, mut questions, mut answers, ids) = in_answer_window(&root, &["Aino", "Bertil"]);
    let start = state.question_start_time;
    submit_answer(&mut state, &mut answers, Some(ids[0]), &"a".to_string(), start).unwrap();
    assert!(!has_quorum(&state, &answers));
    let idle = controller_tick(&mut state, &mut questions, &mut answers, &root, start);
    assert_eq!(idle, Narration::Nothing);
    assert_eq!(state.question_stage, QuestionStage::QuestionAnswerTime);
    submit_answer(&mut state, &mut answers, Some(ids[1]), &"b".to_string(), start).unwrap();
    assert!(has_quorum(&state, &answers));
    let narration = controller_tick(&mut state, &mut questions, &mut answers, &root, start);
    assert_eq!(state.game_stage, GameStage::GameInProgress);
    assert_eq!(state.question_stage, QuestionStage::QuestionFinished);
    let served = &root.questions[questions[0].question_id as usize];
    assert_eq!(
        narration,
        Narration::Speak {
            text: format!("{} {}", served.correct_tts, served.context_information_tts),
            question_id: served.id,
            audio_type: AudioType::Answer,
        }
    );
}

#[test]
fn timeout_closes_the_answer_window() {
    let root = bank(3);
    let (mut state, mut questions, mut answers, ids) = in_answer_window(&root, &["Aino", "Bertil"]);
    let start = state.question_start_time;
    submit_answer(&mut state, &mut answers, Some(ids[0]), &"a".to_string(), start).unwrap();
    controller_tick(&mut state, &mut questions, &mut answers, &root, start + ANSWER_WINDOW_MS);
    assert_eq!(state.question_stage, QuestionStage::QuestionAnswerTime);
    controller_tick(&mut state, &mut questions, &mut answers, &root, start + ANSWER_WINDOW_MS + 1);
    assert_eq!(state.question_stage, QuestionStage::QuestionFinished);
}

#[test]
fn advance_flag_does_not_close_the_answer_window() {
    let root = bank(3);
    let (mut state, mut questions, mut answers, _ids) = in_answer_window(&root, &["Aino"]);
    state.proceed_flag = true;
    let narration = controller_tick(&mut state, &mut questions, &mut answers, &root, 1001);
    assert_eq!(narration, Narration::Nothing);
    assert_eq!(state.question_stage, QuestionStage::QuestionAnswerTime);
    assert!(!state.proceed_flag);
}

#[test]
fn elapsed_time_is_strict() {
    let mut state = GameState::new();
    state.question_start_time = 100;
    assert!(!has_elapsed(&state, 100 + INTRODUCTION_WINDOW_MS, INTRODUCTION_WINDOW_MS));
    assert!(has_elapsed(&state, 101 + INTRODUCTION_WINDOW_MS, INTRODUCTION_WINDOW_MS));
    assert!(!has_elapsed(&state, 50, 0));
    state.question_start_time = u64::MAX - 5;
    assert!(!has_elapsed(&state, u64::MAX, FINISHED_WINDOW_MS));
    assert_eq!(INTRODUCTION_WINDOW_MS, 30000);
    assert_eq!(ANSWER_WINDOW_MS, 60000);
    assert_eq!(FINISHED_WINDOW_MS, 45000);
}

#[test]
fn lobby_waits_for_the_presenter() {
    let root = bank(2);
    let mut state = GameState::new();
    let mut questions = Vec::new();
    let mut answers = Vec::new();
    let narration = controller_tick(&mut state, &mut questions, &mut answers, &root, 1_000_000);
    assert_eq!(narration, Narration::Nothing);
    assert_eq!(state, GameState::new());
    assert!(questions.is_empty());
}

#[test]
fn leaving_the_lobby_picks_the_first_question_and_introduces_the_players() {
    let root = bank(4);
    let mut state = GameState::new();
    let mut questions = Vec::new();
    let mut answers = Vec::new();
    for name in ["Aino", "Bertil", "Cecilia"] {
        register_new_player(&mut state, &name.to_string(), 1).unwrap();
    }
    state.proceed_flag = true;
    let narration = controller_tick(&mut state, &mut questions, &mut answers, &root, 10);
    assert_eq!(state.game_stage, GameStage::IntroducePlayers);
    assert_eq!(state.question_stage, QuestionStage::QuestionIntroduction);
    assert_eq!(state.question_number, 1);
    assert!(!state.proceed_flag);
    assert_eq!(questions.len(), 1);
    assert_eq!(questions[0].question_number, 1);
    let served = &root.questions[questions[0].question_id as usize];
    assert_eq!(state.question.id, served.id);
    assert_eq!(state.question.question, served.question);
    assert_eq!(state.question.correct, served.correct);
    let options = state.question.answer_options.clone().unwrap();
    assert_eq!(
        sorted(options),
        sorted(vec![
            served.correct.clone(),
            served.incorrect_1.clone(),
            served.incorrect_2.clone(),
            served.incorrect_3.clone()
        ])
    );
    assert_eq!(
        narration,
        Narration::Generate {
            prompt: prompt_for_player_introduction("Aino, Bertil ja Cecilia".to_string())
        }
    );
}

#[test]
fn first_round_starts_the_clock_and_reads_the_question() {
    let root = bank(2);
    let mut state = GameState::new();
    let mut questions = Vec::new();
    let mut answers = Vec::new();
    state.proceed_flag = true;
    controller_tick(&mut state, &mut questions, &mut answers, &root, 10);
    let idle = controller_tick(&mut state, &mut questions, &mut answers, &root, 999_999);
    assert_eq!(idle, Narration::Nothing);
    assert_eq!(state.game_stage, GameStage::IntroducePlayers);
    state.proceed_flag = true;
    let narration = controller_tick(&mut state, &mut questions, &mut answers, &root, 777);
    assert_eq!(state.game_stage, GameStage::GameInProgress);
    assert_eq!(state.question_stage, QuestionStage::QuestionIntroduction);
    assert_eq!(state.question_start_time, 777);
    assert!(!state.proceed_flag);
    assert_eq!(
        narration,
        Narration::Speak {
            text: state.question.question_tts.clone(),
            question_id: state.question.id,
            audio_type: AudioType::Question,
        }
    );
}

#[test]
fn introduction_gives_way_after_its_window() {
    let root = bank(2);
    let mut state = GameState::new();
    let mut questions = Vec::new();
    let mut answers = Vec::new();
    state.proceed_flag = true;
    controller_tick(&mut state, &mut questions, &mut answers, &root, 10);
    state.proceed_flag = true;
    controller_tick(&mut state, &mut questions, &mut answers, &root, 500);
    controller_tick(&mut state, &mut questions, &mut answers, &root, 500 + INTRODUCTION_WINDOW_MS);
    assert_eq!(state.question_stage, QuestionStage::QuestionIntroduction);
    let narration =
        controller_tick(&mut state, &mut questions, &mut answers, &root, 501 + INTRODUCTION_WINDOW_MS);
    assert_eq!(narration, Narration::Nothing);
    assert_eq!(state.question_stage, QuestionStage::QuestionAnswerTime);
}

#[test]
fn full_game_within_the_bank_repeats_no_question() {
    let root = bank(40);
    let mut state = GameState::new();
    let mut questions = Vec::new();
    let mut answers = Vec::new();
    state.question_limit = 5;
    let mut now = 0;
    let mut ticks = 0;
    while state.game_stage != GameStage::ResultsShow {
        now += 100_000;
        state.proceed_flag = true;
        let narration = controller_tick(&mut state, &mut questions, &mut answers, &root, now);
        finish_narration(&mut state, &narration, None, None, now);
        for i in 0..questions.len() {
            for j in (i + 1)..questions.len() {
                assert_ne!(questions[i].question_id, questions[j].question_id);
                assert_ne!(questions[i].question_number, questions[j].question_number);
            }
        }
        ticks += 1;
        assert!(ticks < 100);
    }
    assert_eq!(questions.len(), 5);
    assert_eq!(state.question_number, 6);
    for (k, record) in questions.iter().enumerate() {
        assert!(record.question_id >= 0 && record.question_id < 40);
        assert_eq!(record.question_number, k as u64 + 1);
    }
}

#[test]
fn exhausted_bank_falls_back_to_its_first_question() {
    let root = bank(1);
    let mut state = GameState::new();
    let mut questions = Vec::new();
    let mut answers = Vec::new();
    state.question_limit = 3;
    let aino = register_new_player(&mut state, &"Aino".to_string(), 0).unwrap();
    state.proceed_flag = true;
    controller_tick(&mut state, &mut questions, &mut answers, &root, 1);
    assert_eq!(questions, vec![Questions { question_number: 1, question_id: 0 }]);
    assert!(!newest_repeats(&questions));
    state.proceed_flag = true;
    controller_tick(&mut state, &mut questions, &mut answers, &root, 2);
    for round in 1..=3u64 {
        assert_eq!(state.game_stage, GameStage::GameInProgress);
        assert_eq!(state.question_stage, QuestionStage::QuestionIntroduction);
        assert_eq!(state.question_number, round);
        assert_eq!(state.question.id, 0);
        assert_eq!(state.question.question, "Question 0?");
        assert_eq!(state.question.answer_options.clone().unwrap().len(), 4);
        assert_eq!(questions.len() as u64, round);
        assert_eq!(questions[questions.len() - 1], Questions { question_number: round, question_id: 0 });
        assert_eq!(newest_repeats(&questions), round > 1);
        state.proceed_flag = true;
        controller_tick(&mut state, &mut questions, &mut answers, &root, 3);
        assert_eq!(state.question_stage, QuestionStage::QuestionAnswerTime);
        let text = if round == 2 { "wrong" } else { "Answer 0" };
        submit_answer(&mut state, &mut answers, Some(aino), &text.to_string(), 3).unwrap();
        controller_tick(&mut state, &mut questions, &mut answers, &root, 3);
        assert_eq!(state.question_stage, QuestionStage::QuestionFinished);
        state.proceed_flag = true;
        controller_tick(&mut state, &mut questions, &mut answers, &root, 4);
    }
    assert_eq!(state.game_stage, GameStage::ResultsShow);
    assert_eq!(
        questions,
        vec![
            Questions { question_number: 1, question_id: 0 },
            Questions { question_number: 2, question_id: 0 },
            Questions { question_number: 3, question_id: 0 },
        ]
    );
    assert_eq!(state.scores, vec![line("Aino", 2)]);
}

#[test]
fn ledger_records_the_identity_of_the_question_served() {
    let root = Root {
        metadata: Metadata { author: "t".to_string(), time: 1 },
        questions: vec![
            question(30, "Capital of France?", "Paris"),
            question(10, "Capital of Italy?", "Rome"),
            question(20, "Capital of Spain?", "Madrid"),
        ],
    };
    let mut state = GameState::new();
    let mut questions = Vec::new();
    let mut answers = Vec::new();
    state.question_limit = 3;
    let aino = register_new_player(&mut state, &"Aino".to_string(), 0).unwrap();
    let bertil = register_new_player(&mut state, &"Bertil".to_string(), 0).unwrap();
    state.proceed_flag = true;
    controller_tick(&mut state, &mut questions, &mut answers, &root, 1);
    state.proceed_flag = true;
    controller_tick(&mut state, &mut questions, &mut answers, &root, 2);
    for round in 1..=3usize {
        assert_eq!(questions.len(), round);
        let record = questions[round - 1].clone();
        assert_eq!(record.question_number, round as u64);
        assert_eq!(record.question_id, state.question.id);
        assert!([10, 20, 30].contains(&record.question_id));
        assert_eq!(
            get_correct_answer_for_question_id(record.question_id, &root),
            state.question.correct
        );
        state.proceed_flag = true;
        controller_tick(&mut state, &mut questions, &mut answers, &root, 3);
        let correct = state.question.correct.clone();
        submit_answer(&mut state, &mut answers, Some(aino), &correct, 3).unwrap();
        submit_answer(&mut state, &mut answers, Some(bertil), &"Oslo".to_string(), 3).unwrap();
        controller_tick(&mut state, &mut questions, &mut answers, &root, 3);
        state.proceed_flag = true;
        controller_tick(&mut state, &mut questions, &mut answers, &root, 4);
    }
    assert_eq!(state.game_stage, GameStage::ResultsShow);
    assert_eq!(state.scores, vec![line("Aino", 3), line("Bertil", 0)]);
}

#[test]
fn a_single_question_with_another_identity_than_its_position_scores() {
    let root = Root {
        metadata: Metadata { author: "t".to_string(), time: 1 },
        questions: vec![question(7, "Capital of France?", "Paris")],
    };
    let mut ledger = Vec::new();
    let served = get_new_question(&root, &mut ledger, 1);
    assert_eq!(served, root.questions[0]);
    assert_eq!(ledger, vec![Questions { question_number: 1, question_id: 7 }]);
    let mut state = GameState::new();
    state.players = vec![player("A", 1)];
    assert_eq!(
        count_points(&root, &state, &ledger, &vec![answer(1, 1, "Paris")]),
        Some(vec![line("A", 1)])
    );
    let again = get_new_question(&root, &mut ledger, 2);
    assert_eq!(again, root.questions[0]);
    assert_eq!(
        ledger,
        vec![
            Questions { question_number: 1, question_id: 7 },
            Questions { question_number: 2, question_id: 7 },
        ]
    );
    assert!(newest_repeats(&ledger));
}

#[test]
fn an_answer_whose_question_cannot_be_found_earns_nothing() {
    let root = bank(2);
    let mut state = GameState::new();
    state.players = vec![player("A", 1)];
    let no_record: Vec<Questions> = vec![];
    assert_eq!(
        count_points(&root, &state, &no_record, &vec![answer(7, 1, "-abcd")]),
        Some(vec![line("A", 0)])
    );
    assert_eq!(count_player_points(1, &root, &no_record, &vec![answer(7, 1, "-abcd")]), 0);
    let stray = vec![Questions { question_number: 7, question_id: -999999 }];
    assert_eq!(
        count_points(&root, &state, &stray, &vec![answer(7, 1, "-abcd")]),
        Some(vec![line("A", 0)])
    );
    assert!(!is_correct(&answer(7, 1, "-abcd"), &root, &stray));
    assert_eq!(find_question_id(7, &no_record), None);
    assert_eq!(find_question_id(7, &stray), Some(-999999));
    assert_eq!(find_correct_answer(-999999, &root), None);
    assert_eq!(find_correct_answer(1, &root), Some("Answer 1".to_string()));
    let asked = vec![Questions { question_number: 7, question_id: 1 }];
    assert!(is_correct(&answer(7, 1, "Answer 1"), &root, &asked));
    assert!(!is_correct(&answer(7, 1, "Answer 0"), &root, &asked));
    assert_eq!(count_player_points(1, &root, &asked, &vec![answer(7, 1, "Answer 1")]), 1);
    assert_eq!(count_player_points(2, &root, &asked, &vec![answer(7, 1, "Answer 1")]), 0);
}

#[test]
fn a_tick_selects_out_of_the_lobby_and_after_a_finished_question() {
    let mut state = GameState::new();
    let answers = vec![];
    assert!(!will_select(&state, &answers, 0));
    state.proceed_flag = true;
    assert!(will_select(&state, &answers, 0));
    state.game_stage = GameStage::IntroducePlayers;
    assert!(!will_select(&state, &answers, 0));
    state.game_stage = GameStage::GameInProgress;
    state.question_stage = QuestionStage::QuestionFinished;
    state.question_number = 4;
    assert!(will_select(&state, &answers, 0));
    state.proceed_flag = false;
    assert!(!will_select(&state, &answers, FINISHED_WINDOW_MS));
    assert!(will_select(&state, &answers, FINISHED_WINDOW_MS + 1));
    state.question_number = 5;
    assert!(!will_select(&state, &answers, FINISHED_WINDOW_MS + 1));
    state.question_number = 1;
    state.question_stage = QuestionStage::QuestionAnswerTime;
    assert!(!will_select(&state, &answers, FINISHED_WINDOW_MS + 1));
}

#[test]
fn a_tick_that_selects_nothing_needs_no_bank() {
    let root = Root::default();
    let mut state = GameState::new();
    let mut questions = Vec::new();
    let mut answers = Vec::new();
    assert_eq!(
        controller_tick(&mut state, &mut questions, &mut answers, &root, 5),
        Narration::Nothing
    );
    state.game_stage = GameStage::GameInProgress;
    state.question_number = 1;
    state.proceed_flag = true;
    controller_tick(&mut state, &mut questions, &mut answers, &root, 5);
    assert_eq!(state.question_stage, QuestionStage::QuestionAnswerTime);
}

#[test]
fn scoring_counts_correct_answers() {
    let mut q1 = question(0, "Capital of France?", "Paris");
    q1.incorrect_1 = "Rome".to_string();
    let root = Root { metadata: Metadata { author: "t".to_string(), time: 1 }, questions: vec![q1] };
    let mut state = GameState::new();
    state.players = vec![player("A", 1), player("B", 2)];
    let questions = vec![Questions { question_number: 1, question_id: 0 }];
    let answers = vec![answer(1, 1, "Paris"), answer(1, 2, "Rome")];
    assert_eq!(
        count_points(&root, &state, &questions, &answers),
        Some(vec![line("A", 1), line("B", 0)])
    );
}

#[test]
fn scoring_ranks_the_later_player_first_when_they_score_more() {
    let root = bank(3);
    let mut state = GameState::new();
    state.players = vec![player("A", 1), player("B", 2), player("C", 3)];
    let questions = vec![
        Questions { question_number: 1, question_id: 2 },
        Questions { question_number: 2, question_id: 0 },
    ];
    let answers = vec![
        answer(1, 1, "Answer 0"),
        answer(1, 2, "Answer 2"),
        answer(2, 2, "Answer 0"),
        answer(1, 3, "Answer 2"),
        answer(2, 3, "Answer 2"),
        answer(2, 1, "answer 0"),
    ];
    assert_eq!(
        count_points(&root, &state, &questions, &answers),
        Some(vec![line("B", 2), line("C", 1), line("A", 0)])
    );
}

#[test]
fn scoring_without_players_gives_no_lines() {
    let root = bank(1);
    let state = GameState::new();
    assert_eq!(count_points(&root, &state, &vec![], &vec![answer(1, 1, "x")]), Some(vec![]));
}

#[test]
fn ties_keep_the_order_of_registration() {
    assert_eq!(
        sort_results_by_points(vec![line("A", 2), line("B", 2)]),
        Some(vec![line("A", 2), line("B", 2)])
    );
    assert_eq!(
        sort_results_by_points(vec![line("A", 0), line("B", 1), line("C", 0), line("D", 1)]),
        Some(vec![line("B", 1), line("D", 1), line("A", 0), line("C", 0)])
    );
    assert_eq!(
        sort_results_by_points(vec![line("A", 1), line("B", 3), line("C", 2), line("D", 3)]),
        Some(vec![line("B", 3), line("D", 3), line("C", 2), line("A", 1)])
    );
    assert_eq!(sort_results_by_points(vec![]), Some(vec![]));
    assert_eq!(
        sort_results_by_points(vec![line("A", 0), line("B", 1)]),
        Some(vec![line("B", 1), line("A", 0)])
    );
}

#[test]
fn ledger_lookup_finds_the_first_record_or_the_sentinel() {
    let questions = vec![
        Questions { question_number: 1, question_id: 7 },
        Questions { question_number: 2, question_id: 3 },
        Questions { question_number: 2, question_id: 9 },
    ];
    assert_eq!(get_question_id_for_question_number(1, &questions), 7);
    assert_eq!(get_question_id_for_question_number(2, &questions), 3);
    assert_eq!(get_question_id_for_question_number(3, &questions), -999999);
    assert_eq!(UNKNOWN_QUESTION_ID, -999999);
    assert_eq!(get_question_id_for_question_number(1, &vec![]), -999999);
}

#[test]
fn bank_lookup_finds_the_correct_answer_or_the_sentinel() {
    let mut root = bank(3);
    root.questions.push(question(1, "Again?", "Other"));
    assert_eq!(get_correct_answer_for_question_id(0, &root), "Answer 0");
    assert_eq!(get_correct_answer_for_question_id(1, &root), "Answer 1");
    assert_eq!(get_correct_answer_for_question_id(2, &root), "Answer 2");
    assert_eq!(get_correct_answer_for_question_id(5, &root), "-abcd");
    assert_eq!(get_correct_answer_for_question_id(-999999, &root), "-abcd");
}

#[test]
fn game_end_ranks_the_players_and_announces_the_winner() {
    let root = bank(1);
    let mut state = GameState::new();
    let mut questions = Vec::new();
    let mut answers = Vec::new();
    state.question_limit = 1;
    let a = register_new_player(&mut state, &"A".to_string(), 0).unwrap();
    let b = register_new_player(&mut state, &"B".to_string(), 0).unwrap();
    state.proceed_flag = true;
    controller_tick(&mut state, &mut questions, &mut answers, &root, 1);
    state.proceed_flag = true;
    controller_tick(&mut state, &mut questions, &mut answers, &root, 2);
    state.proceed_flag = true;
    controller_tick(&mut state, &mut questions, &mut answers, &root, 3);
    submit_answer(&mut state, &mut answers, Some(a), &"wrong".to_string(), 4).unwrap();
    submit_answer(&mut state, &mut answers, Some(b), &"Answer 0".to_string(), 4).unwrap();
    controller_tick(&mut state, &mut questions, &mut answers, &root, 5);
    assert_eq!(state.question_stage, QuestionStage::QuestionFinished);
    let idle = controller_tick(&mut state, &mut questions, &mut answers, &root, 2 + FINISHED_WINDOW_MS);
    assert_eq!(idle, Narration::Nothing);
    let narration =
        controller_tick(&mut state, &mut questions, &mut answers, &root, 3 + FINISHED_WINDOW_MS);
    assert_eq!(state.game_stage, GameStage::ResultsShow);
    assert_eq!(state.question_number, 2);
    assert_eq!(state.scores, vec![line("B", 1), line("A", 0)]);
    assert_eq!(
        narration,
        Narration::Generate {
            prompt: prompt_for_winner_announcement("B".to_string(), "1".to_string())
        }
    );
}

#[test]
fn game_without_players_ends_without_a_winner() {
    let root = bank(1);
    let mut state = GameState::new();
    let mut questions = Vec::new();
    let mut answers = Vec::new();
    state.question_limit = 0;
    state.game_stage = GameStage::GameInProgress;
    state.question_stage = QuestionStage::QuestionFinished;
    state.proceed_flag = true;
    let narration = controller_tick(&mut state, &mut questions, &mut answers, &root, 5);
    assert_eq!(narration, Narration::Nothing);
    assert_eq!(state.game_stage, GameStage::ResultsShow);
    assert!(state.scores.is_empty());
}

#[test]
fn new_game_discards_everything() {
    let root = bank(2);
    let mut state = GameState::new();
    let mut questions = vec![Questions { question_number: 1, question_id: 1 }];
    let mut answers = vec![answer(1, 9, "x")];
    state.game_stage = GameStage::ResultsShow;
    state.players = vec![player("A", 9)];
    state.question_number = 6;
    state.question = question(1, "Q", "A");
    state.scores = vec![line("A", 0)];
    state.audio = Some("audio/x.mp3".to_string());
    state.tts_text = Some("text".to_string());
    state.question_start_time = 12345;
    state.question_limit = 9;
    state.proceed_flag = true;
    let waiting = controller_tick(&mut state, &mut questions, &mut answers, &root, 50);
    assert_eq!(waiting, Narration::Nothing);
    assert_eq!(state.game_stage, GameStage::ResultsShow);
    assert!(!state.proceed_flag);
    assert_eq!(state.players.len(), 1);
    assert_eq!(questions.len(), 1);
    assert_eq!(answers.len(), 1);
    state.newgame_flag = true;
    let narration = controller_tick(&mut state, &mut questions, &mut answers, &root, 60);
    assert_eq!(narration, Narration::Nothing);
    assert_eq!(state, GameState::new());
    assert_eq!(state.game_stage, GameStage::WaitingForPlayers);
    assert!(state.players.is_empty());
    assert_eq!(state.question_number, 0);
    assert!(questions.is_empty());
    assert!(answers.is_empty());
}

#[test]
fn generated_narration_needs_both_text_and_speech() {
    let request = Narration::Generate { prompt: "p".to_string() };
    let mut state = GameState::new();
    state.question_start_time = 5;
    finish_narration(&mut state, &request, Some("t".to_string()), Some("a.mp3".to_string()), 9);
    assert_eq!(state.tts_text, Some("t".to_string()));
    assert_eq!(state.audio, Some("a.mp3".to_string()));
    assert_eq!(state.question_start_time, 5);
    finish_narration(&mut state, &request, Some("t".to_string()), None, 9);
    assert_eq!(state.tts_text, None);
    assert_eq!(state.audio, None);
    state.tts_text = Some("old".to_string());
    state.audio = Some("old.mp3".to_string());
    finish_narration(&mut state, &request, None, None, 9);
    assert_eq!(state.tts_text, None);
    assert_eq!(state.audio, None);
}

#[test]
fn spoken_narration_sets_the_audio_and_restarts_the_clock_for_questions() {
    let mut state = GameState::new();
    state.tts_text = Some("kept".to_string());
    state.question_start_time = 5;
    let read_question = Narration::Speak {
        text: "q".to_string(),
        question_id: 3,
        audio_type: AudioType::Question,
    };
    finish_narration(&mut state, &read_question, None, Some("audio/q-3.mp3".to_string()), 70);
    assert_eq!(state.audio, Some("audio/q-3.mp3".to_string()));
    assert_eq!(state.tts_text, Some("kept".to_string()));
    assert_eq!(state.question_start_time, 70);
    let read_answer = Narration::Speak {
        text: "a".to_string(),
        question_id: 3,
        audio_type: AudioType::Answer,
    };
    finish_narration(&mut state, &read_answer, None, None, 90);
    assert_eq!(state.audio, None);
    assert_eq!(state.question_start_time, 70);
    let before = GameState { audio: Some("x".to_string()), ..GameState::new() };
    let mut after = GameState { audio: Some("x".to_string()), ..GameState::new() };
    finish_narration(&mut after, &Narration::Nothing, Some("t".to_string()), None, 90);
    assert_eq!(after, before);
}

#[test]
fn selection_records_an_unasked_question() {
    let root = bank(5);
    let mut ledger = vec![
        Questions { question_number: 1, question_id: 0 },
        Questions { question_number: 2, question_id: 1 },
        Questions { question_number: 3, question_id: 2 },
        Questions { question_number: 4, question_id: 4 },
    ];
    let served = get_new_question(&root, &mut ledger, 5);
    assert_eq!(ledger.len(), 5);
    if newest_repeats(&ledger) {
        assert_eq!(ledger[4], Questions { question_number: 5, question_id: 0 });
        assert_eq!(served, root.questions[0]);
    } else {
        assert_eq!(ledger[4], Questions { question_number: 5, question_id: 3 });
        assert_eq!(served, root.questions[3]);
    }
}

#[test]
fn a_draw_is_accepted_only_once() {
    let root = bank(3);
    let mut ledger = Vec::new();
    assert!(!already_asked(&ledger, 2));
    assert_eq!(accept_draw(&root, &mut ledger, 1, 2), Some(root.questions[2].clone()));
    assert_eq!(ledger, vec![Questions { question_number: 1, question_id: 2 }]);
    assert!(already_asked(&ledger, 2));
    assert_eq!(accept_draw(&root, &mut ledger, 2, 2), None);
    assert_eq!(ledger, vec![Questions { question_number: 1, question_id: 2 }]);
    assert_eq!(accept_draw(&root, &mut ledger, 2, 0), Some(root.questions[0].clone()));
    assert_eq!(ledger.len(), 2);
}

#[test]
fn shuffling_keeps_the_four_answers() {
    let q = question(0, "Q", "Right");
    let mut orders = Vec::new();
    for _ in 0..200 {
        let options = shuffle_answers(&q);
        assert_eq!(options.len(), 4);
        assert_eq!(
            sorted(options.clone()),
            sorted(vec![
                "Right".to_string(),
                "not Right 1".to_string(),
                "not Right 2".to_string(),
                "not Right 3".to_string()
            ])
        );
        if !orders.contains(&options) {
            orders.push(options);
        }
    }
    assert!(orders.len() > 1);
}

#[test]
fn player_names_are_joined_for_speech() {
    assert_eq!(get_player_names_for_tts(vec![]), "");
    assert_eq!(get_player_names_for_tts(vec!["Aino".to_string()]), "Aino");
    assert_eq!(
        get_player_names_for_tts(vec!["Aino".to_string(), "Bertil".to_string()]),
        "Aino ja Bertil"
    );
    assert_eq!(
        get_player_names_for_tts(vec![
            "Aino".to_string(),
            "Bertil".to_string(),
            "Cecilia".to_string(),
            "David".to_string()
        ]),
        "Aino, Bertil, Cecilia ja David"
    );
}

#[test]
fn announcement_and_prompts() {
    assert_eq!(
        correct_answer_and_context_announcement(&"Pariisi".to_string(), &"Se on pääkaupunki.".to_string()),
        "Pariisi Se on pääkaupunki."
    );
    assert_eq!(
        prompt_for_player_introduction("Aino ja Bertil".to_string()),
        "Olet tietovisaisäntä. Tietovisa on nimeltään Pub I Q, ja se on juuri alkamassa. Esittele pelaajat Aino ja Bertil. Toivota heille hyvää onnea. Vastaus voi olla korkeintaan neljä lausetta pitkä."
    );
    assert_eq!(
        prompt_for_winner_announcement("Aino".to_string(), "3".to_string()),
        "Olet tietovisaisäntä. Tietovisa on juuri päättynyt ja voittajaksi on selviytynyt pelaaja nimeltä Aino. Hän keräsi 3 pistettä! Onnittele voittajaa sekä kiitä kaikkia osallistujia pelistä. Käytä ylitsevuotavaista hehkutusta, jos mahdollista. Vastaus voi olla enintään neljä lausetta pitkä."
    );
}

#[test]
fn numbers_are_written_in_decimal() {
    assert_eq!(decimal(0), "0");
    assert_eq!(decimal(7), "7");
    assert_eq!(decimal(10), "10");
    assert_eq!(decimal(1234567890), "1234567890");
    assert_eq!(decimal(u64::MAX), "18446744073709551615");
    assert_eq!(signed_decimal(0), "0");
    assert_eq!(signed_decimal(-1), "-1");
    assert_eq!(signed_decimal(-999999), "-999999");
    assert_eq!(signed_decimal(i64::MIN), "-9223372036854775808");
    assert_eq!(signed_decimal(i64::MAX), "9223372036854775807");
}

#[test]
fn audio_file_names() {
    assert_eq!(cached_audio_name(12, AudioType::Question), Some("audio/q-12.mp3".to_string()));
    assert_eq!(cached_audio_name(12, AudioType::Answer), Some("audio/a-12.mp3".to_string()));
    assert_eq!(cached_audio_name(-3, AudioType::Answer), Some("audio/a--3.mp3".to_string()));
    assert_eq!(cached_audio_name(12, AudioType::NoCache), None);
    assert_eq!(one_shot_audio_name(987654), "audio/nocache-987654.mp3");
}

#[test]
fn answers_are_counted_by_ordinal() {
    let answers = vec![answer(1, 1, "a"), answer(2, 1, "b"), answer(1, 2, "c"), answer(3, 2, "d")];
    assert_eq!(count_players_answered_to_question(&answers, 1), 2);
    assert_eq!(count_players_answered_to_question(&answers, 2), 1);
    assert_eq!(count_players_answered_to_question(&answers, 4), 0);
    assert_eq!(count_players_answered_to_question(&vec![], 1), 0);
}

#[test]
fn late_registrations_count_toward_the_quorum() {
    let mut state = GameState::new();
    state.players = vec![player("A", 1)];
    state.question_number = 1;
    let answers = vec![answer(1, 1, "a")];
    assert!(has_quorum(&state, &answers));
    state.players.push(player("B", 2));
    assert!(!has_quorum(&state, &answers));
}

#[test]
fn player_sees_the_round_only_while_it_runs() {
    let root = bank(3);
    let (mut state, mut questions, mut answers, ids) = in_answer_window(&root, &["Aino", "Bertil"]);
    let view = get_player_state(&mut state, &token(ids[1]), 4321).unwrap();
    assert_eq!(view.game_stage, GameStage::GameInProgress);
    let round = view.round.unwrap();
    assert_eq!(round.answer_options, state.question.answer_options);
    assert_eq!(round.question_number, 1);
    assert_eq!(round.question_stage, QuestionStage::QuestionAnswerTime);
    assert_eq!(round.question_start_time, 1000);
    assert_eq!(state.players[1].last_seen, 4321);
    assert_eq!(state.players[0].last_seen, 5);

    state.question_limit = 1;
    controller_tick(&mut state, &mut questions, &mut answers, &root, 1000 + ANSWER_WINDOW_MS + 1);
    state.proceed_flag = true;
    controller_tick(&mut state, &mut questions, &mut answers, &root, 1000 + ANSWER_WINDOW_MS + 2);
    let view = player_state(&mut state, Some(ids[0]), 9999).unwrap();
    assert_eq!(view.game_stage, GameStage::ResultsShow);
    assert_eq!(view.round, None);
    assert_eq!(state.players[0].last_seen, 9999);
}

#[test]
fn player_state_rejects_unknown_identities() {
    let mut state = GameState::new();
    let id = register_new_player(&mut state, &"Aino".to_string(), 1).unwrap();
    let before = state.players.clone();
    assert_eq!(
        get_player_state(&mut state, &"zzz".to_string(), 7),
        Err(SubmitError::InvalidIdentity)
    );
    assert_eq!(
        get_player_state(&mut state, &token(id.wrapping_add(1)), 7),
        Err(SubmitError::InvalidIdentity)
    );
    assert_eq!(player_state(&mut state, None, 7), Err(SubmitError::InvalidIdentity));
    assert_eq!(state.players, before);
    let view = get_player_state(&mut state, &token(id), 7).unwrap();
    assert_eq!(view.game_stage, GameStage::WaitingForPlayers);
    assert_eq!(view.round, None);
}

#[test]
fn presenter_sees_what_the_stage_calls_for() {
    let mut state = GameState::new();
    state.players = vec![player("A", 1), player("B", 2)];
    state.audio = Some("audio/x.mp3".to_string());
    state.tts_text = Some("hello".to_string());
    state.question = question(4, "Q?", "Right");
    state.question_number = 2;
    state.question_start_time = 88;
    state.question_stage = QuestionStage::QuestionFinished;
    state.scores = vec![line("B", 1), line("A", 0)];
    let answers = vec![answer(1, 1, "a"), answer(2, 1, "b"), answer(1, 2, "c")];
    assert_eq!(
        get_presenter_state(&state, &answers),
        PresenterState::WaitingForPlayers { num_players: 2 }
    );
    state.game_stage = GameStage::IntroducePlayers;
    assert_eq!(
        get_presenter_state(&state, &answers),
        PresenterState::IntroducePlayers {
            num_players: 2,
            audio: Some("audio/x.mp3".to_string()),
            tts_text: Some("hello".to_string()),
        }
    );
    state.game_stage = GameStage::GameInProgress;
    assert_eq!(
        get_presenter_state(&state, &answers),
        PresenterState::GameInProgress {
            question: "Q?".to_string(),
            question_stage: QuestionStage::QuestionFinished,
            question_start_time: 88,
            num_players: 2,
            num_players_answered: 1,
            answer: "Right".to_string(),
            context: "About Right".to_string(),
            audio: Some("audio/x.mp3".to_string()),
        }
    );
    state.game_stage = GameStage::ResultsShow;
    assert_eq!(
        get_presenter_state(&state, &answers),
        PresenterState::ResultsShow {
            num_players: 2,
            audio: Some("audio/x.mp3".to_string()),
            tts_text: Some("hello".to_string()),
            scores: vec![line("B", 1), line("A", 0)],
        }
    );
}

#[test]
fn presenter_commands_set_the_flags() {
    let mut state = GameState::new();
    assert_eq!(
        handle_presenter_command(&mut state, "proceed".to_string()),
        Ok("proceed".to_string())
    );
    assert!(state.proceed_flag);
    assert!(!state.newgame_flag);
    assert_eq!(
        handle_presenter_command(&mut state, "newgame".to_string()),
        Ok("newgame".to_string())
    );
    assert!(state.newgame_flag);
    let mut other = GameState::new();
    assert_eq!(
        handle_presenter_command(&mut other, "Proceed".to_string()),
        Err("Unknown command".to_string())
    );
    assert_eq!(other, GameState::new());
}

#[test]
fn cloned_question_equals_its_source() {
    let mut q = question(3, "Q?", "Right");
    q.answer_options = Some(vec!["a".to_string(), "b".to_string()]);
    assert_eq!(q.clone(), q);
}

#[test]
fn identity_tokens_are_hyphenated_lower_case_hex() {
    assert_eq!(identity_token(7), "00000000-0000-0000-0000-000000000007");
    assert_eq!(
        identity_token(0x550e8400_e29b_41d4_a716_446655440000),
        "550e8400-e29b-41d4-a716-446655440000"
    );
    assert_eq!(identity_token(u128::MAX), "ffffffff-ffff-ffff-ffff-ffffffffffff");
    assert_eq!(
        uuid::Uuid::parse_str(&identity_token(123456789)).unwrap().as_u128(),
        123456789
    );
}

#[test]
fn identity_is_read_without_hyphens_too() {
    let mut state = GameState::new();
    register_player(&mut state, &"Aino".to_string(), 0x550e8400_e29b_41d4_a716_446655440000, 1)
        .unwrap();
    let view = get_player_state(&mut state, &"550e8400e29b41d4a716446655440000".to_string(), 9);
    assert!(view.is_ok());
    assert_eq!(state.players[0].last_seen, 9);
    assert_eq!(
        get_player_state(&mut state, &"550e8400-e29b-41d4-a716".to_string(), 10),
        Err(SubmitError::InvalidIdentity)
    );
    assert_eq!(
        get_player_state(&mut state, &"".to_string(), 10),
        Err(SubmitError::InvalidIdentity)
    );
    assert_eq!(state.players[0].last_seen, 9);
}

#[test]
fn generated_text_is_the_first_part_of_the_first_candidate() {
    let first = Content {
        parts: vec![
            Part { text: "  Tervetuloa kaikki! \n\t ".to_string() },
            Part { text: "second".to_string() },
        ],
        role: "model".to_string(),
    };
    let other = Content { parts: vec![Part { text: "other".to_string() }], role: "model".to_string() };
    assert_eq!(
        generated_text(&vec![first, other.clone()]),
        Some("  Tervetuloa kaikki!".to_string())
    );
    assert_eq!(generated_text(&vec![other]), Some("other".to_string()));
    assert_eq!(generated_text(&vec![]), None);
    let hollow = Content { parts: vec![], role: "model".to_string() };
    assert_eq!(generated_text(&vec![hollow]), None);
}

#[test]
fn default_bank_is_empty() {
    let root = Root::default();
    assert_eq!(root.metadata, Metadata { author: String::new(), time: 0 });
    assert_eq!(root.metadata, Metadata::default());
    assert!(root.questions.is_empty());
    assert_eq!(Question::default(), Question::blank());
    assert_eq!(Question::default().correct, "");
}
