//! End-to-end runs of the channel state machine on scripted event streams.

use quizbowl::game::{
    apply_verdict, handle_message, reader_step, ChannelState, Effect, GameTable, HandlerAction,
    QuestionState, ReaderWait,
};
use quizbowl::grade::Response;
use quizbowl::qb::{Packet, QuestionSet, Tossup};

fn sample_tossup(question_sanitized: &str, answer: &str) -> Tossup {
    Tossup {
        id: "id".to_string(),
        question: question_sanitized.to_string(),
        answer: answer.to_string(),
        category: "Science".to_string(),
        subcategory: "Physics".to_string(),
        packet: Packet { id: "p".to_string(), name: "P".to_string(), number: 1 },
        set: QuestionSet {
            id: "s".to_string(),
            name: "S".to_string(),
            year: 2023,
            standard: true,
        },
        updated_at: "2023-01-01T00:00:00Z".to_string(),
        difficulty: 4,
        number: 1,
        answer_sanitized: answer.to_string(),
        question_sanitized: question_sanitized.to_string(),
    }
}

fn say_texts(effects: &[Effect]) -> Vec<String> {
    effects
        .iter()
        .filter_map(|e| match e {
            Effect::Say(t) => Some(t.clone()),
            _ => None,
        })
        .collect()
}

const USER_A: u64 = 11;
const USER_B: u64 = 22;

#[test]
fn correct_buzz_with_power() {
    // Buzz before the power marker is revealed: the round ends with power.
    let t = sample_tossup(
        "one two three four five six seven eight (*) nine ten eleven twelve",
        "the <b>answer</b>",
    );
    let mut table = GameTable::new();
    assert!(table.try_start(7, t));
    let mut st = table.take_state(7).unwrap();

    // First three words are up; user A buzzes during the pacing wait.
    assert!(matches!(st.phase, QuestionState::Reading));
    let act = handle_message(&mut st, USER_A, "buzz", 100, false);
    assert!(matches!(act, HandlerAction::BuzzAccepted));

    // The reader wakes, announces the buzz and waits for the answer.
    let out = reader_step(&mut st, ReaderWait::Pause, false);
    assert_eq!(out.wait, ReaderWait::BuzzWindow);
    assert_eq!(
        say_texts(&out.effects),
        vec!["buzz from <@11>! 10 seconds to answer".to_string()]
    );

    // A answers within the window; the grader says correct.
    let act = handle_message(&mut st, USER_A, "the answer", 105, false);
    match act {
        HandlerAction::Judge(_, answer, prompted) => {
            assert_eq!(answer, "the answer");
            assert!(!prompted);
        }
        other => panic!("expected a judging turn, got {:?}", other),
    }
    apply_verdict(&mut st, USER_A, 105, false, &Response::Correct);

    // The reader wakes from the latch and closes the round with power.
    let out = reader_step(&mut st, ReaderWait::BuzzWindow, false);
    assert_eq!(out.wait, ReaderWait::Done);
    let said = say_texts(&out.effects);
    assert_eq!(said[0], "Correct - power!");
    assert_eq!(said[1], "the **answer**");
    table.finish(7);
    assert!(!table.is_reading(7));
}

#[test]
fn correct_buzz_after_power() {
    // Reveal past the power marker first: the same run ends with a plain
    // correct.
    let t = sample_tossup("one two three four (*) five six seven", "the answer");
    let mut table = GameTable::new();
    assert!(table.try_start(7, t));
    let mut st = table.take_state(7).unwrap();

    // One pacing step reveals words four through eight, marker included.
    let out = reader_step(&mut st, ReaderWait::Pause, true);
    assert_eq!(out.wait, ReaderWait::Pause);
    assert!(st.display.contains("(\\*)"));

    let act = handle_message(&mut st, USER_A, "BUZZ", 100, false);
    assert!(matches!(act, HandlerAction::BuzzAccepted));
    let _ = reader_step(&mut st, ReaderWait::Pause, false);
    let act = handle_message(&mut st, USER_A, "the answer", 103, false);
    assert!(matches!(act, HandlerAction::Judge(_, _, false)));
    apply_verdict(&mut st, USER_A, 103, false, &Response::Correct);

    let out = reader_step(&mut st, ReaderWait::BuzzWindow, false);
    assert_eq!(out.wait, ReaderWait::Done);
    assert_eq!(say_texts(&out.effects)[0], "Correct");
}

#[test]
fn buzz_timeout_blocks_the_user() {
    let t = sample_tossup("one two three four five six", "it");
    let mut st = quizbowl::game::start_state(t);

    let act = handle_message(&mut st, USER_A, "buzz", 100, false);
    assert!(matches!(act, HandlerAction::BuzzAccepted));
    let out = reader_step(&mut st, ReaderWait::Pause, false);
    assert_eq!(out.wait, ReaderWait::BuzzWindow);

    // Ten seconds pass without an answer.
    let out = reader_step(&mut st, ReaderWait::BuzzWindow, true);
    assert_eq!(out.wait, ReaderWait::Now);
    assert!(matches!(st.phase, QuestionState::Invalid(u) if u == USER_A));

    // The reader resets: no answer, user blocked, reading resumes.
    let out = reader_step(&mut st, ReaderWait::Now, false);
    assert_eq!(out.wait, ReaderWait::Now);
    assert_eq!(say_texts(&out.effects), vec!["No answer!".to_string()]);
    assert!(matches!(st.phase, QuestionState::Reading));
    assert!(st.blocklist.contains(&USER_A));

    // A second buzz attempt by the same user is rejected.
    let act = handle_message(&mut st, USER_A, "buzz", 120, false);
    assert!(matches!(act, HandlerAction::RejectedBuzz));
}

#[test]
fn incorrect_then_later_correct() {
    let t = sample_tossup("one two three four five six", "right");
    let mut st = quizbowl::game::start_state(t);

    let act = handle_message(&mut st, USER_A, "buzz", 100, false);
    assert!(matches!(act, HandlerAction::BuzzAccepted));
    let _ = reader_step(&mut st, ReaderWait::Pause, false);
    let act = handle_message(&mut st, USER_A, "wrong", 102, false);
    assert!(matches!(act, HandlerAction::Judge(_, _, false)));
    apply_verdict(&mut st, USER_A, 102, false, &Response::Incorrect("INCORRECT".to_string()));

    let out = reader_step(&mut st, ReaderWait::BuzzWindow, false);
    assert_eq!(say_texts(&out.effects), vec!["incorrect!".to_string()]);
    assert!(st.blocklist.contains(&USER_A));
    assert!(matches!(st.phase, QuestionState::Reading));

    // B buzzes later and answers correctly.
    let act = handle_message(&mut st, USER_B, "buzz", 110, false);
    assert!(matches!(act, HandlerAction::BuzzAccepted));
    let _ = reader_step(&mut st, ReaderWait::Pause, false);
    let act = handle_message(&mut st, USER_B, "right", 112, false);
    assert!(matches!(act, HandlerAction::Judge(_, _, false)));
    apply_verdict(&mut st, USER_B, 112, false, &Response::Correct);
    let out = reader_step(&mut st, ReaderWait::BuzzWindow, false);
    assert_eq!(out.wait, ReaderWait::Done);
    assert_eq!(say_texts(&out.effects)[0], "Correct");
}

#[test]
fn prompt_path_gives_one_more_turn() {
    let t = sample_tossup("one two three four five six", "right");
    let mut st = quizbowl::game::start_state(t);

    let act = handle_message(&mut st, USER_A, "buzz", 100, false);
    assert!(matches!(act, HandlerAction::BuzzAccepted));
    let _ = reader_step(&mut st, ReaderWait::Pause, false);
    let act = handle_message(&mut st, USER_A, "a vague answer", 101, false);
    assert!(matches!(act, HandlerAction::Judge(_, _, false)));
    apply_verdict(&mut st, USER_A, 101, false, &Response::Prompt("which one?".to_string()));

    // The reader posts the follow-up question to the same user.
    let out = reader_step(&mut st, ReaderWait::BuzzWindow, false);
    assert_eq!(out.wait, ReaderWait::PromptWindow);
    assert_eq!(say_texts(&out.effects), vec!["which one? <@11>".to_string()]);

    // Only the prompted user's reply counts, and it is graded as prompted.
    let act = handle_message(&mut st, USER_B, "the right one", 103, false);
    assert!(matches!(act, HandlerAction::Ignored));
    let act = handle_message(&mut st, USER_A, "the right one", 104, false);
    match act {
        HandlerAction::Judge(_, answer, prompted) => {
            assert_eq!(answer, "the right one");
            assert!(prompted);
        }
        other => panic!("expected a prompted judging turn, got {:?}", other),
    }
}

#[test]
fn question_exhausted_without_buzz() {
    let t = sample_tossup("one two three four", "it <u>all</u>");
    let mut st = quizbowl::game::start_state(t);

    // The one remaining word is revealed, then the grace wait runs out.
    let out = reader_step(&mut st, ReaderWait::Pause, true);
    assert_eq!(out.wait, ReaderWait::Pause);
    let out = reader_step(&mut st, ReaderWait::Pause, true);
    assert_eq!(out.wait, ReaderWait::Grace);
    let out = reader_step(&mut st, ReaderWait::Grace, true);
    assert_eq!(out.wait, ReaderWait::Done);
    assert_eq!(
        say_texts(&out.effects),
        vec!["Time's up!".to_string(), "it __all__".to_string()]
    );
}

#[test]
fn concurrent_start_is_rejected() {
    let t1 = sample_tossup("one two three four", "first");
    let t2 = sample_tossup("five six seven eight", "second");
    let mut table = GameTable::new();
    assert!(table.try_start(7, t1));
    // A second start on the same channel is rejected outright.
    assert!(!table.try_start(7, t2));
    // The running game is undisturbed.
    let st = table.take_state(7).unwrap();
    assert_eq!(st.tossup.answer, "first");
    assert_eq!(st.display, "one two three");
    // Another channel is free.
    let t3 = sample_tossup("nine ten eleven twelve", "third");
    assert!(table.try_start(8, t3));
}

#[test]
fn reveal_paces_three_then_five_words() {
    let t = sample_tossup("w1 w2 w3 w4 w5 w6 w7 w8 w9 w10", "x");
    let mut st = quizbowl::game::start_state(t);
    assert_eq!(st.display, "w1 w2 w3");
    let out = reader_step(&mut st, ReaderWait::Pause, true);
    assert_eq!(out.wait, ReaderWait::Pause);
    assert_eq!(st.display, "w1 w2 w3 w4 w5 w6 w7 w8");
    let _ = reader_step(&mut st, ReaderWait::Pause, true);
    assert_eq!(st.display, "w1 w2 w3 w4 w5 w6 w7 w8 w9 w10");
}

#[test]
fn bell_marker_flips_after_reset() {
    let t = sample_tossup("one two three four five six", "it");
    let mut st = quizbowl::game::start_state(t);
    let _ = handle_message(&mut st, USER_A, "buzz", 100, false);
    let out = reader_step(&mut st, ReaderWait::Pause, false);
    assert_eq!(out.wait, ReaderWait::BuzzWindow);
    assert!(st.display.contains(":bell:"));
    let _ = reader_step(&mut st, ReaderWait::BuzzWindow, true);
    let out = reader_step(&mut st, ReaderWait::Now, false);
    assert!(st.display.contains(":no_bell:"));
    assert!(!st.display.contains(":bell:") || st.display.contains(":no_bell:"));
    match &out.effects[1] {
        Effect::NewMessage(t) => assert!(t.contains(":no_bell:")),
        other => panic!("expected a reposted message, got {:?}", other),
    }
}

#[test]
fn late_answer_is_ignored() {
    let t = sample_tossup("one two three four five six", "it");
    let mut st = quizbowl::game::start_state(t);
    let _ = handle_message(&mut st, USER_A, "buzz", 100, false);
    let _ = reader_step(&mut st, ReaderWait::Pause, false);
    // Eleven seconds after the buzz the handler no longer accepts it.
    let act = handle_message(&mut st, USER_A, "it", 111, false);
    assert!(matches!(act, HandlerAction::Ignored));
}

#[test]
fn bot_messages_are_ignored() {
    let t = sample_tossup("one two three four five six", "it");
    let mut st = quizbowl::game::start_state(t);
    let act = handle_message(&mut st, USER_A, "buzz", 100, true);
    assert!(matches!(act, HandlerAction::Ignored));
    assert!(matches!(st.phase, QuestionState::Reading));
}
