//! The grader's deterministic layers and the judge-reply classifier.

use quizbowl::grade::{classify_reply, locally_correct, Response};

#[test]
fn exact_match_is_correct_regardless_of_case() {
    assert!(locally_correct("Paris", "Paris", "PARIS"));
    assert!(locally_correct("Paris", "Paris", "paris"));
    assert!(locally_correct("Rudolf <b>Clausius</b>", "Rudolf Clausius", "rudolf clausius"));
}

#[test]
fn small_typo_within_budget_is_correct() {
    assert!(locally_correct(
        "index of refraction [or n until it is read]",
        "index of refraction [or n until it is read]",
        "index of refractoin",
    ));
}

#[test]
fn trailing_clause_is_stripped_before_matching() {
    assert!(locally_correct(
        "The Great Gatsby (accept Gatsby)",
        "The Great Gatsby (accept Gatsby)",
        "the great gatsby",
    ));
}

#[test]
fn marked_span_match_is_correct() {
    assert!(locally_correct(
        "<b><u>Washington</u></b> <b><u>Redskins</u></b> [accept either underlined part]",
        "Washington Redskins [accept either underlined part]",
        "redskins",
    ));
}

#[test]
fn unrelated_answer_is_not_locally_correct() {
    assert!(!locally_correct("Paris", "Paris", "London"));
    assert!(!locally_correct(
        "simple harmonic oscillators (accept SHOs)",
        "simple harmonic oscillators (accept SHOs)",
        "simple harmonic system",
    ));
}

#[test]
fn classify_reads_plain_verdicts() {
    assert_eq!(classify_reply("CORRECT", false), Response::Correct);
    assert!(matches!(classify_reply("INCORRECT", false), Response::Incorrect(_)));
    assert_eq!(
        classify_reply("which one?", false),
        Response::Prompt("which one?".to_string())
    );
}

#[test]
fn classify_strips_think_blocks() {
    assert_eq!(
        classify_reply("<think>the user may mean the river</think>\nCORRECT", false),
        Response::Correct
    );
    assert!(matches!(
        classify_reply("<think>hmm</think> INCORRECT", false),
        Response::Incorrect(_)
    ));
}

#[test]
fn classify_never_prompts_when_already_prompted() {
    assert!(matches!(
        classify_reply("which one do you mean?", true),
        Response::Incorrect(_)
    ));
    assert!(matches!(
        classify_reply("<think>x</think> PROMPT: be specific", true),
        Response::Incorrect(_)
    ));
    assert_eq!(classify_reply("CORRECT", true), Response::Correct);
}

#[test]
fn incorrect_carries_the_raw_reply() {
    let raw = "<think>reasoning</think>\nINCORRECT";
    match classify_reply(raw, false) {
        Response::Incorrect(text) => assert_eq!(text, raw),
        other => panic!("expected incorrect, got {:?}", other),
    }
}
