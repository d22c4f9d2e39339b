//! The query language on single names, operators and errors, exercised
//! twice: once as the compiler's own cases, once through the public entry
//! point alone.

use std::collections::VecDeque;

use quizbowl::query::{parse_expr, parse_query, tokenize, ApiQuery, QueryError};
use quizbowl::taxonomy::taxonomy;

fn q(s: &str) -> Result<ApiQuery, QueryError> {
    parse_query(s)
}

#[test]
fn query_single_category() {
    let r = q("Science").unwrap();
    assert!(r.categories.contains(&"Science".to_string()));
    assert!(r.subcategories.contains(&"Biology".to_string()));
}

#[test]
fn query_tests_single_category() {
    let r = q("Science").unwrap();
    assert!(r.categories.contains(&"Science".to_string()));
    assert!(r.subcategories.contains(&"Biology".to_string()));
}

#[test]
fn query_single_subcategory() {
    let r = q("Biology").unwrap();
    assert_eq!(r.categories, vec!["Science"]);
    assert_eq!(r.subcategories, vec!["Biology"]);
}

#[test]
fn query_tests_single_subcategory() {
    let r = q("Biology").unwrap();
    assert_eq!(r.categories, vec!["Science"]);
    assert_eq!(r.subcategories, vec!["Biology"]);
}

#[test]
fn query_alternate_subcategory() {
    let r = q("Math").unwrap();
    assert_eq!(r.categories, vec!["Science"]);
    assert_eq!(r.subcategories, vec!["Other Science"]);
    assert_eq!(r.alternate_subcategories, vec!["Math"]);
}

#[test]
fn query_tests_alternate_subcategory() {
    let r = q("Math").unwrap();
    assert_eq!(r.categories, vec!["Science"]);
    assert_eq!(r.subcategories, vec!["Other Science"]);
    assert_eq!(r.alternate_subcategories, vec!["Math"]);
}

#[test]
fn query_multi_word_category() {
    let r = q("American Literature").unwrap();
    assert_eq!(r.categories, vec!["Literature"]);
    assert_eq!(r.subcategories, vec!["American Literature"]);
}

#[test]
fn query_tests_multi_word_category() {
    let r = q("American Literature").unwrap();
    assert_eq!(r.categories, vec!["Literature"]);
    assert_eq!(r.subcategories, vec!["American Literature"]);
}

#[test]
fn query_and_operator_same_category() {
    let r = q("Biology & Chemistry").unwrap();
    assert_eq!(r.categories, vec!["Science"]);
    assert!(r.subcategories.contains(&"Biology".to_string()), "{:?}", r);
    assert!(r.subcategories.contains(&"Chemistry".to_string()));
}

#[test]
fn query_tests_and_operator_same_category() {
    let r = q("Biology & Chemistry").unwrap();
    assert_eq!(r.categories, vec!["Science"]);
    assert!(r.subcategories.contains(&"Biology".to_string()), "{:?}", r);
    assert!(r.subcategories.contains(&"Chemistry".to_string()));
}

#[test]
fn query_and_operator_different_category_impossible() {
    let r = q("Biology & History");
    assert!(matches!(r, Err(QueryError::ImpossibleBranch(_))));
}

#[test]
fn query_tests_and_operator_different_category_impossible() {
    let r = q("Biology & History");
    assert!(matches!(r, Err(QueryError::ImpossibleBranch(_))));
}

#[test]
fn query_or_operator() {
    let r = q("Biology + History").unwrap();
    assert!(r.categories.contains(&"Science".to_string()));
    assert!(r.categories.contains(&"History".to_string()));
}

#[test]
fn query_tests_or_operator() {
    let r = q("Biology + History").unwrap();
    assert!(r.categories.contains(&"Science".to_string()));
    assert!(r.categories.contains(&"History".to_string()));
}

#[test]
fn query_not_operator_removes_subcategory() {
    let r = q("Science - Math").unwrap();
    assert!(r.categories.contains(&"Science".to_string()), "{:?}", r);
    assert!(!r.alternate_subcategories.contains(&"Math".to_string()));
}

#[test]
fn query_tests_not_operator_removes_subcategory() {
    let r = q("Science - Math").unwrap();
    assert!(r.categories.contains(&"Science".to_string()), "{:?}", r);
    assert!(!r.alternate_subcategories.contains(&"Math".to_string()));
}

#[test]
fn query_parentheses_override_precedence() {
    let r = q("Science & (Biology + Chemistry)").unwrap();
    assert_eq!(r.categories, vec!["Science"]);
    assert!(r.subcategories.contains(&"Biology".to_string()));
    assert!(r.subcategories.contains(&"Chemistry".to_string()));
}

#[test]
fn query_tests_parentheses_override_precedence() {
    let r = q("Science & (Biology + Chemistry)").unwrap();
    assert_eq!(r.categories, vec!["Science"]);
    assert!(r.subcategories.contains(&"Biology".to_string()));
    assert!(r.subcategories.contains(&"Chemistry".to_string()));
}

#[test]
fn query_unexpected_token_error() {
    let r = q("& Science");
    assert!(matches!(r, Err(QueryError::UnexpectedToken(_))));
}

#[test]
fn query_tests_unexpected_token_error() {
    let r = q("& Science");
    assert!(matches!(r, Err(QueryError::UnexpectedToken(_))));
}

#[test]
fn query_unexpected_eof_error() {
    let mut tokens = tokenize("(");
    let r = parse_expr(&mut tokens);
    assert!(matches!(r, Err(QueryError::UnexpectedEOF)));
}

#[test]
fn query_tests_unexpected_eof_error() {
    let mut tokens = tokenize("(");
    let r = parse_expr(&mut tokens);
    assert!(matches!(r, Err(QueryError::UnexpectedEOF)));
}

#[test]
fn query_invalid_category_error() {
    let r = q("MadeUpCategory");
    assert!(matches!(r, Err(QueryError::InvalidCategory(_))));
}

#[test]
fn query_tests_invalid_category_error() {
    let r = q("MadeUpCategory");
    assert!(matches!(r, Err(QueryError::InvalidCategory(_))));
}

#[test]
fn query_lowercase_and_spacing() {
    let r = q("  biology  +   history  ").unwrap();
    assert!(r.categories.contains(&"Science".to_string()));
    assert!(r.categories.contains(&"History".to_string()));
}

#[test]
fn query_tests_lowercase_and_spacing() {
    let r = q("  biology  +   history  ").unwrap();
    assert!(r.categories.contains(&"Science".to_string()));
    assert!(r.categories.contains(&"History".to_string()));
}

#[test]
fn complex_minus_operator_subcategory_subtraction() {
    let r = q("Science - Biology").unwrap();
    assert_eq!(r.categories, vec!["Science"]);
    assert!(!r.subcategories.contains(&"Biology".to_string()));
    assert!(r.subcategories.contains(&"Chemistry".to_string()));
    assert!(r.subcategories.contains(&"Physics".to_string()));
}

#[test]
fn complex_minus_operator_alternate_subtraction() {
    let r = q("Science - Math").unwrap();
    assert_eq!(r.categories, vec!["Science"]);
    assert!(!r.alternate_subcategories.contains(&"Math".to_string()));
    assert!(r.subcategories.contains(&"Biology".to_string()));
    assert!(r.alternate_subcategories.contains(&"Computer Science".to_string()));
}

#[test]
fn nested_parentheses() {
    let r = q("(Biology + Chemistry) - Math").unwrap();
    println!("(Biology + Chemistry) - Math: {:?}", r);
    assert_eq!(r.categories, vec!["Science"]);
    assert!(r.subcategories.contains(&"Biology".to_string()));
    assert!(r.subcategories.contains(&"Chemistry".to_string()));
    assert!(!r.alternate_subcategories.contains(&"Math".to_string()));
}

#[test]
fn multiple_and_operators() {
    let r = q("Science & Biology & Chemistry").unwrap();
    assert_eq!(r.categories, vec!["Science"]);
    assert!(r.subcategories.contains(&"Biology".to_string()));
    assert!(r.subcategories.contains(&"Chemistry".to_string()));
}

#[test]
fn multiple_or_operators() {
    let r = q("Biology + Chemistry + Physics").unwrap();
    assert_eq!(r.categories, vec!["Science"]);
    assert!(r.subcategories.contains(&"Biology".to_string()));
    assert!(r.subcategories.contains(&"Chemistry".to_string()));
    assert!(r.subcategories.contains(&"Physics".to_string()));
}

#[test]
fn multiple_minus_operators() {
    let r = q("Science - Math - Computer Science").unwrap();
    assert_eq!(r.categories, vec!["Science"]);
    assert!(!r.alternate_subcategories.contains(&"Math".to_string()));
    assert!(!r.alternate_subcategories.contains(&"Computer Science".to_string()));
    assert!(r.alternate_subcategories.contains(&"Astronomy".to_string()));
}

#[test]
fn default_number_is_one() {
    let r = q("Biology").unwrap();
    assert_eq!(r.number, 1);
}

#[test]
fn categories_contain_expected_keys() {
    let tax = taxonomy();
    for name in ["Science", "History", "Literature", "Fine Arts"] {
        assert!(tax.iter().any(|c| c.name == name));
    }
}

#[test]
fn science_has_expected_subcategories() {
    let tax = taxonomy();
    let science = tax.iter().find(|c| c.name == "Science").unwrap();
    assert!(science.subcategories.contains(&"Biology".to_string()));
    assert!(science.subcategories.contains(&"Chemistry".to_string()));
    assert!(science.subcategories.contains(&"Physics".to_string()));
    assert!(science.alternate_subcategories.contains(&"Math".to_string()));
    assert!(science.alternate_subcategories.contains(&"Computer Science".to_string()));
}

#[test]
fn case_insensitive_category_lookup() {
    let tax = taxonomy();
    let found = quizbowl::taxonomy::find_category(&tax, "science");
    assert!(found.is_some());
    assert_eq!(tax[found.unwrap()].name, "Science");
}

#[test]
fn fuzzy_category_resolution() {
    // A near-miss resolves through the edit-distance layer.
    let r = q("Histori").unwrap();
    assert_eq!(r.categories, vec!["History"]);
    let r = q("Bology").unwrap();
    assert_eq!(r.categories, vec!["Science"]);
    assert_eq!(r.subcategories, vec!["Biology"]);
    // A distant token resolves nowhere.
    let r = q("Zebra Quantum");
    assert!(matches!(r, Err(QueryError::InvalidCategory(_))));
}

#[test]
fn alternate_anchor_includes_other_subcategory() {
    let r = q("Economics").unwrap();
    assert_eq!(r.categories, vec!["Social Science"]);
    assert_eq!(r.subcategories, vec!["Other Social Science"]);
    assert_eq!(r.alternate_subcategories, vec!["Economics"]);
}
