use segon::models::{grade, score, AnswerStatus, ClientMessage, Game, OptionIndex, Question, ServerMessage};
use segon::notifier::Notifier;
use segon::schedule::{time_till_game, SchedularError};
use segon::session::{Action, Event, Phase, Session};
use segon::store::{GameDatabase, GameMemoryDatabase};

fn question(text: &str, correct: OptionIndex) -> Question {
    Question {
        question: text.to_string(),
        options: ["1".to_string(), "2".to_string(), "3".to_string(), "4".to_string()],
        answer_idx: correct,
    }
}

/// Runs the store actions of `actions` for `user`, and returns the messages
/// that were to be sent, in order.
fn perform(db: &mut GameMemoryDatabase, user: &str, actions: Vec<Action>) -> Vec<ServerMessage> {
    let mut sent = Vec::new();
    for a in actions {
        match a {
            Action::Send(m) => sent.push(m),
            Action::RecordAnswer { question, answer } => db.set_answer(user, &question, answer),
            Action::RecordStatus { question, status } => db.set_answer_status(user, &question, status),
            Action::RecordScore { score } => db.set_score(user, score),
            _ => {}
        }
    }
    sent
}

fn read_question(actions: &[Action]) -> String {
    match &actions[0] {
        Action::ReadAnswer { question } => question.clone(),
        other => panic!("expected a read, got {other:?}"),
    }
}

/// Plays one round of `game`; `answer(i)` is what the client sends during
/// question `i`'s window, if anything. Returns every message sent.
fn play(
    session: &mut Session,
    db: &mut GameMemoryDatabase,
    game: Game,
    answer: impl Fn(usize) -> Option<OptionIndex>,
) -> Vec<ServerMessage> {
    let user = session.user_id().clone();
    let n = game.questions.len();
    let mut sent = Vec::new();
    let a = session.step(Event::Signal);
    assert!(matches!(a.as_slice(), [Action::FetchGame]));
    sent.extend(perform(db, &user, session.step(Event::GameFetched(Some(game)))));
    sent.extend(perform(db, &user, session.step(Event::TimerElapsed)));
    for i in 0..n {
        if let Some(o) = answer(i) {
            let acts = session.on_client_message(ClientMessage::Answer { answer_idx: o });
            sent.extend(perform(db, &user, acts));
        }
        let acts = session.step(Event::TimerElapsed);
        let q = read_question(&acts);
        let recorded = db.get_answer(&user, &q);
        sent.extend(perform(db, &user, session.step(Event::AnswerRead(recorded))));
        sent.extend(perform(db, &user, session.step(Event::TimerElapsed)));
    }
    sent
}

#[test]
fn answering_correctly_scores_one() {
    let mut db = GameMemoryDatabase::new();
    let (mut session, _) = Session::new("u1".to_string(), Some(5));
    let game = Game {
        questions: vec![Question {
            question: "What is 2+2?".to_string(),
            options: ["1".to_string(), "2".to_string(), "3".to_string(), "4".to_string()],
            answer_idx: OptionIndex::Three,
        }],
    };
    let sent = play(&mut session, &mut db, game, |_| Some(OptionIndex::Three));
    assert!(matches!(sent[0], ServerMessage::GameStart));
    assert!(matches!(&sent[1], ServerMessage::Question { question, .. } if question == "What is 2+2?"));
    assert!(matches!(
        sent[2],
        ServerMessage::Answer { status: AnswerStatus::Correct, answer_idx: OptionIndex::Three }
    ));
    assert!(matches!(sent[3], ServerMessage::GameEnd { score: 1 }));
    assert_eq!(sent.len(), 4);
    assert_eq!(db.get_score("u1"), Some(1));
    assert_eq!(db.get_answer_status("u1", "What is 2+2?"), Some(AnswerStatus::Correct));
}

#[test]
fn all_correct_scores_every_question() {
    let mut db = GameMemoryDatabase::new();
    let (mut session, _) = Session::new("u".to_string(), None);
    let keys = [OptionIndex::One, OptionIndex::Four, OptionIndex::Two];
    let game = Game {
        questions: vec![
            question("a", keys[0]),
            question("b", keys[1]),
            question("c", keys[2]),
        ],
    };
    let sent = play(&mut session, &mut db, game, |i| Some(keys[i]));
    let answers: Vec<_> = sent.iter().filter(|m| matches!(m, ServerMessage::Answer { .. })).collect();
    assert_eq!(answers.len(), 3);
    assert!(answers
        .iter()
        .all(|m| matches!(m, ServerMessage::Answer { status: AnswerStatus::Correct, .. })));
    assert!(matches!(sent.last(), Some(ServerMessage::GameEnd { score: 3 })));
    assert_eq!(session.phase(), Phase::AwaitingStart);
}

#[test]
fn silent_client_gets_no_answer_and_zero() {
    let mut db = GameMemoryDatabase::new();
    let (mut session, _) = Session::new("quiet".to_string(), Some(1));
    let game = Game { questions: vec![question("a", OptionIndex::One), question("b", OptionIndex::Two)] };
    let sent = play(&mut session, &mut db, game, |_| None);
    let statuses: Vec<_> = sent
        .iter()
        .filter_map(|m| match m {
            ServerMessage::Answer { status, .. } => Some(*status),
            _ => None,
        })
        .collect();
    assert_eq!(statuses, vec![AnswerStatus::NoAnswer, AnswerStatus::NoAnswer]);
    assert!(matches!(sent.last(), Some(ServerMessage::GameEnd { score: 0 })));
}

#[test]
fn wrong_answer_is_incorrect_and_reveals_the_key() {
    let mut db = GameMemoryDatabase::new();
    let (mut session, _) = Session::new("w".to_string(), None);
    let game = Game { questions: vec![question("a", OptionIndex::Two)] };
    let sent = play(&mut session, &mut db, game, |_| Some(OptionIndex::Four));
    assert!(matches!(
        sent[2],
        ServerMessage::Answer { status: AnswerStatus::Incorrect, answer_idx: OptionIndex::Two }
    ));
    assert!(matches!(sent[3], ServerMessage::GameEnd { score: 0 }));
}

#[test]
fn empty_game_ends_at_once_with_zero() {
    let mut db = GameMemoryDatabase::new();
    let (mut session, _) = Session::new("e".to_string(), None);
    let sent = play(&mut session, &mut db, Game { questions: vec![] }, |_| None);
    assert!(matches!(sent.as_slice(), [ServerMessage::GameStart, ServerMessage::GameEnd { score: 0 }]));
}

#[test]
fn time_till_game_is_the_first_message() {
    let (_, actions) = Session::new("t".to_string(), Some(17));
    assert!(matches!(actions[0], Action::Send(ServerMessage::TimeTillGame { time: 17 })));
    assert!(matches!(actions[1], Action::WaitForSignal));
    assert_eq!(actions.len(), 2);
    let (_, actions) = Session::new("t".to_string(), None);
    assert!(matches!(actions.as_slice(), [Action::WaitForSignal]));
}

#[test]
fn answer_outside_a_window_gets_no_game() {
    let (mut session, _) = Session::new("n".to_string(), None);
    assert_eq!(session.active_question(), None);
    let actions = session.on_client_message(ClientMessage::Answer { answer_idx: OptionIndex::One });
    assert!(matches!(actions.as_slice(), [Action::Send(ServerMessage::NoGame)]));
}

#[test]
fn active_question_is_set_only_in_the_window() {
    let (mut session, _) = Session::new("s".to_string(), None);
    session.step(Event::Signal);
    session.step(Event::GameFetched(Some(Game { questions: vec![question("q1", OptionIndex::One)] })));
    assert_eq!(session.active_question(), None);
    session.step(Event::TimerElapsed);
    assert_eq!(session.active_question(), Some("q1".to_string()));
    let acts = session.on_client_message(ClientMessage::Answer { answer_idx: OptionIndex::Two });
    assert!(matches!(&acts[0], Action::RecordAnswer { question, answer: OptionIndex::Two } if question == "q1"));
    session.step(Event::TimerElapsed);
    assert_eq!(session.active_question(), None);
    let acts = session.on_client_message(ClientMessage::Answer { answer_idx: OptionIndex::Two });
    assert!(matches!(acts.as_slice(), [Action::Send(ServerMessage::NoGame)]));
}

#[test]
fn failed_fetch_waits_for_the_next_signal() {
    let (mut session, _) = Session::new("f".to_string(), None);
    session.step(Event::Signal);
    let acts = session.step(Event::GameFetched(None));
    assert!(matches!(acts.as_slice(), [Action::WaitForSignal]));
    assert_eq!(session.phase(), Phase::AwaitingStart);
}

#[test]
fn unexpected_events_change_nothing() {
    let (mut session, _) = Session::new("x".to_string(), None);
    assert!(session.step(Event::TimerElapsed).is_empty());
    assert!(session.step(Event::AnswerRead(Some(OptionIndex::One))).is_empty());
    assert_eq!(session.phase(), Phase::AwaitingStart);
    session.step(Event::Signal);
    assert!(session.step(Event::Signal).is_empty());
    assert_eq!(session.phase(), Phase::Fetching);
}

#[test]
fn intro_answer_and_reveal_delays_are_ten_seconds() {
    let (mut session, _) = Session::new("d".to_string(), None);
    session.step(Event::Signal);
    let acts = session.step(Event::GameFetched(Some(Game { questions: vec![question("q", OptionIndex::One)] })));
    assert!(matches!(acts[1], Action::Sleep(10)));
    let acts = session.step(Event::TimerElapsed);
    assert!(matches!(acts[1], Action::Sleep(10)));
    session.step(Event::TimerElapsed);
    let acts = session.step(Event::AnswerRead(None));
    assert!(matches!(acts[2], Action::Sleep(10)));
}

#[test]
fn grading_rules() {
    assert_eq!(grade(None, OptionIndex::One), AnswerStatus::NoAnswer);
    assert_eq!(grade(Some(OptionIndex::One), OptionIndex::One), AnswerStatus::Correct);
    assert_eq!(grade(Some(OptionIndex::Two), OptionIndex::One), AnswerStatus::Incorrect);
    assert_eq!(score(&vec![]), 0);
    assert_eq!(
        score(&vec![AnswerStatus::Correct, AnswerStatus::Incorrect, AnswerStatus::Correct, AnswerStatus::NoAnswer]),
        2
    );
}

#[test]
fn get_answer_twice_gives_the_same_value() {
    let mut db = GameMemoryDatabase::new();
    assert_eq!(db.get_answer("u", "q"), None);
    assert_eq!(db.get_answer("u", "q"), None);
    db.set_answer("u", "q", OptionIndex::Two);
    let first = db.get_answer("u", "q");
    db.set_answer_status("u", "q", AnswerStatus::Correct);
    db.set_score("u", 4);
    let second = db.get_answer("u", "q");
    assert_eq!(first, Some(OptionIndex::Two));
    assert_eq!(first, second);
}

#[test]
fn later_answer_replaces_earlier() {
    let mut db = GameMemoryDatabase::new();
    db.set_answer("u", "q", OptionIndex::One);
    db.set_answer("u", "q", OptionIndex::Four);
    db.set_answer("v", "q", OptionIndex::Two);
    assert_eq!(db.get_answer("u", "q"), Some(OptionIndex::Four));
    assert_eq!(db.get_answer("v", "q"), Some(OptionIndex::Two));
    assert_eq!(db.get_answer("u", "other"), None);
    db.set_score("u", 1);
    db.set_score("u", 2);
    assert_eq!(db.get_score("u"), Some(2));
    assert_eq!(db.get_score("v"), None);
}

#[test]
fn stored_game_has_two_questions() {
    let db = GameMemoryDatabase::new();
    let game = db.get_game().unwrap();
    assert_eq!(game.questions.len(), 2);
    assert_eq!(game.questions[0].question, "What is question 1?");
    assert_eq!(game.questions[1].options[3], "Option 4");
    assert_eq!(game.questions[1].answer_idx, OptionIndex::One);
}

#[test]
fn time_till_game_cases() {
    assert_eq!(time_till_game(None, 100, 0), Err(SchedularError::CouldNotGetTimeTillGame));
    assert_eq!(time_till_game(Some(130), 100, 0), Ok(30));
    assert_eq!(time_till_game(Some(130), 100, 500_000_000), Ok(29));
    assert_eq!(time_till_game(Some(100), 100, 0), Ok(0));
    assert_eq!(time_till_game(Some(90), 100, 0), Ok(0));
    assert_eq!(time_till_game(Some(-5), 100, 0), Ok(0));
}

#[test]
fn publish_without_subscribers_is_no_error() {
    let bus = Notifier::new();
    assert_eq!(bus.send_signal(), 0);
    assert_eq!(bus.send_signal(), 0);
}

#[test]
fn late_subscriber_misses_earlier_publish() {
    let bus = Notifier::new();
    let mut early = bus.subscribe();
    assert_eq!(bus.send_signal(), 1);
    let mut late = bus.subscribe();
    assert!(early.try_recv().is_ok());
    assert!(late.try_recv().is_err());
    assert_eq!(bus.send_signal(), 2);
    assert!(late.try_recv().is_ok());
    assert!(early.try_recv().is_ok());
}

#[test]
fn stale_stored_answer_is_not_graded() {
    let mut db = GameMemoryDatabase::new();
    // left by an earlier connection of the same user
    db.set_answer("stale", "a", OptionIndex::One);
    let (mut session, _) = Session::new("stale".to_string(), None);
    let game = Game { questions: vec![question("a", OptionIndex::One)] };
    let sent = play(&mut session, &mut db, game, |_| None);
    assert!(matches!(
        sent[2],
        ServerMessage::Answer { status: AnswerStatus::NoAnswer, answer_idx: OptionIndex::One }
    ));
    assert!(matches!(sent[3], ServerMessage::GameEnd { score: 0 }));
    assert_eq!(db.get_score("stale"), Some(0));
}

#[test]
fn statuses_of_a_user() {
    let mut db = GameMemoryDatabase::new();
    assert!(db.get_answer_statuses("u").is_empty());
    db.set_answer_status("u", "a", AnswerStatus::Correct);
    db.set_answer_status("v", "a", AnswerStatus::Incorrect);
    db.set_answer_status("u", "b", AnswerStatus::NoAnswer);
    db.set_answer_status("u", "a", AnswerStatus::Incorrect);
    let mut got = db.get_answer_statuses("u");
    got.sort_by_key(|s| format!("{s:?}"));
    assert_eq!(got, vec![AnswerStatus::Incorrect, AnswerStatus::NoAnswer]);
    assert_eq!(db.get_answer_statuses("v"), vec![AnswerStatus::Incorrect]);
}

fn record_through_port<D: GameDatabase>(db: &mut D) -> Result<Option<OptionIndex>, D::Error> {
    db.set_answer("p", "q", OptionIndex::Four)?;
    GameDatabase::set_answer_status(db, "p", "q", AnswerStatus::Incorrect)?;
    GameDatabase::set_score(db, "p", 0)?;
    GameDatabase::get_answer(db, "p", "q")
}

#[test]
fn memory_store_through_the_port() {
    let mut db = GameMemoryDatabase::new();
    assert_eq!(record_through_port(&mut db), Ok(Some(OptionIndex::Four)));
    assert_eq!(GameDatabase::get_answers_statuses(&db, "p"), Ok(vec![AnswerStatus::Incorrect]));
    let game = GameDatabase::get_game(&db).unwrap().unwrap();
    assert_eq!(game.questions.len(), 2);
}
