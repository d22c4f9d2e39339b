//! Plain-data checks on the grading verdict, answer keys, query parameters
//! and tossup records.

use quizbowl::grade::Response;
use quizbowl::qb::{Packet, QuestionSet, Tossup, Tossups};
use quizbowl::query::ApiQuery;

#[test]
fn test_response_enum_equality() {
    let correct1 = Response::Correct;
    let correct2 = Response::Correct;
    let incorrect1 = Response::Incorrect("reason".to_string());
    let incorrect2 = Response::Incorrect("reason".to_string());
    let prompt1 = Response::Prompt("hint".to_string());
    let prompt2 = Response::Prompt("hint".to_string());

    assert_eq!(correct1, correct2);
    assert_eq!(incorrect1, incorrect2);
    assert_eq!(prompt1, prompt2);
    assert_ne!(correct1, incorrect1);
    assert_ne!(correct1, prompt1);
    assert_ne!(incorrect1, prompt1);
}

#[test]
fn test_response_debug_format() {
    let responses = vec![
        Response::Correct,
        Response::Incorrect("Wrong answer".to_string()),
        Response::Prompt("Be more specific".to_string()),
    ];

    for response in responses {
        let debug_str = format!("{:?}", response);
        assert!(!debug_str.is_empty());
        match response {
            Response::Correct => assert!(debug_str.contains("Correct")),
            Response::Incorrect(ref reason) => {
                assert!(debug_str.contains("Incorrect"));
                assert!(debug_str.contains(reason));
            }
            Response::Prompt(ref hint) => {
                assert!(debug_str.contains("Prompt"));
                assert!(debug_str.contains(hint));
            }
        }
    }
}

#[test]
fn test_answer_key_edge_cases() {
    let test_cases = vec![
        ("Simple answer", "Simple answer"),
        ("Answer with (parentheses)", "Answer with (parentheses)"),
        ("Answer with [brackets]", "Answer with [brackets]"),
        ("Complex <b>bolded</b> answer", "Complex <b>bolded</b> answer"),
        ("", ""),
        ("Multiple (parts) with [different] <tags>", "Multiple (parts) with [different] <tags>"),
        ("Napoleon Bonaparte", "Napoleon Bonaparte"),
        ("The Great Gatsby (accept Gatsby)", "The Great Gatsby (accept Gatsby)"),
    ];

    for (full_answer, sanitized) in test_cases {
        let answer_key = (full_answer.to_string(), sanitized.to_string());
        assert_eq!(answer_key.0, full_answer);
        assert_eq!(answer_key.1, sanitized);

        assert!(answer_key.0.len() >= answer_key.0.len());
        assert!(answer_key.1.len() >= answer_key.1.len());
    }
}

#[test]
fn test_api_query_parameter_construction() {
    let test_queries = vec![
        ApiQuery {
            categories: vec!["Science".to_string()],
            subcategories: vec![],
            alternate_subcategories: vec![],
            number: 1,
        },
        ApiQuery {
            categories: vec!["Literature".to_string(), "History".to_string()],
            subcategories: vec!["American Literature".to_string()],
            alternate_subcategories: vec!["European History".to_string()],
            number: 3,
        },
        ApiQuery {
            categories: vec![],
            subcategories: vec!["Biology".to_string(), "Chemistry".to_string()],
            alternate_subcategories: vec![],
            number: 10,
        },
    ];

    for query in test_queries {
        assert!(query.number > 0);
        assert!(query.number <= 50);

        for category in &query.categories {
            assert!(!category.is_empty());
        }

        for subcategory in &query.subcategories {
            assert!(!subcategory.is_empty());
        }

        for alt_subcat in &query.alternate_subcategories {
            assert!(!alt_subcat.is_empty());
        }
    }
}

fn sample_packet() -> Packet {
    Packet { id: "packet_id".to_string(), name: "Test Packet".to_string(), number: 1 }
}

fn sample_set() -> QuestionSet {
    QuestionSet { id: "set_id".to_string(), name: "Test Set".to_string(), year: 2023, standard: true }
}

#[test]
fn test_tossups_collection() {
    let packet = sample_packet();
    let set = sample_set();

    let tossup1 = Tossup {
        id: "tossup1_id".to_string(),
        question: "Question 1".to_string(),
        answer: "Answer 1".to_string(),
        category: "Science".to_string(),
        subcategory: "Biology".to_string(),
        packet: packet.clone(),
        set: set.clone(),
        updated_at: "2023-01-01T00:00:00Z".to_string(),
        difficulty: 3,
        number: 1,
        answer_sanitized: "Answer 1".to_string(),
        question_sanitized: "Question 1".to_string(),
    };

    let tossup2 = Tossup {
        id: "tossup2_id".to_string(),
        question: "Question 2".to_string(),
        answer: "Answer 2".to_string(),
        category: "History".to_string(),
        subcategory: "World History".to_string(),
        packet,
        set,
        updated_at: "2023-01-01T00:00:00Z".to_string(),
        difficulty: 4,
        number: 2,
        answer_sanitized: "Answer 2".to_string(),
        question_sanitized: "Question 2".to_string(),
    };

    let tossups = Tossups { tossups: vec![tossup1, tossup2] };

    assert_eq!(tossups.tossups.len(), 2);
    assert_eq!(tossups.tossups[0].category, "Science");
    assert_eq!(tossups.tossups[1].category, "History");
}

#[test]
fn test_query_pair_construction() {
    let q = ApiQuery {
        categories: vec!["Science".to_string()],
        subcategories: vec!["Biology".to_string(), "Chemistry".to_string()],
        alternate_subcategories: vec!["Math".to_string()],
        number: 3,
    };
    let pairs = quizbowl::qb::tossup_query_pairs(&q);
    assert_eq!(
        pairs,
        vec![
            ("categories".to_string(), "Science".to_string()),
            ("subcategories".to_string(), "Biology".to_string()),
            ("subcategories".to_string(), "Chemistry".to_string()),
            ("alternateSubcategories".to_string(), "Math".to_string()),
            ("number".to_string(), "3".to_string()),
        ]
    );
}
