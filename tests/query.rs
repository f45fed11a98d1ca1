use std::path::PathBuf;

use log_cli::lines::Lines;
use log_cli::query::{
    create_relative_usize_range, filter_with_keywords, filter_with_line_range, keep_latest,
    string_contains_vec_elements, EvalKind, Instructions, Query, RangeKind, SelectionError,
};

fn three_lines() -> Lines {
    Lines::new(
        vec![
            "This should not be in res.".to_string(),
            "This is a line.".to_string(),
            "This has the target.".to_string(),
        ]
        .into_iter()
        .enumerate()
        .collect(),
    )
}

fn run(instructions: Instructions, texts: &[&str]) -> Vec<(usize, String)> {
    let query = Query::build(instructions).unwrap();
    let lines = Lines::from_texts(texts.iter().map(|t| t.to_string()).collect());
    query.filter_lines(lines).unwrap()
}

#[test]
fn add_paths_to_instruction() {
    let paths = vec![PathBuf::from("test/path/1"), PathBuf::from("test/path/2")];
    let instructions = Instructions::new()
        .add_path(paths[0].clone())
        .add_path(paths[1].clone());
    assert_eq!(instructions.paths, paths);
}

#[test]
fn add_keywords_to_instructions() {
    let words = vec!["word1", "word2"];
    let instructions = Instructions::new()
        .add_keyword(words[0].to_string())
        .add_keyword(words[1].to_string());
    assert_eq!(instructions.keywords, words);
}

#[test]
fn add_ranges_to_instructions() {
    let ranges: Vec<(usize, usize)> = vec![(0, 0), (1, 2)];
    let instructions = Instructions::new()
        .add_range("line-range", ranges[0].0, ranges[0].1)
        .add_range("line-range", ranges[1].0, ranges[1].1);
    assert_eq!(instructions.ranges.len(), ranges.len());
}

#[test]
fn add_eval_to_instructions() {
    let evals = vec!["all", "any", "latest"];
    let instructions = Instructions::new()
        .add_eval(evals[0], None)
        .add_eval(evals[1], None)
        .add_eval(evals[2], Some(2));
    assert_eq!(instructions.evals.len(), evals.len());
}

#[test]
fn execute_default_query() {
    let instructions = Instructions::default();
    let query = Query::build(instructions);
    let lines = Lines::new(
        vec!["This is a line.".to_string()]
            .into_iter()
            .enumerate()
            .collect(),
    );

    if let Ok(q) = query {
        let res = q.filter_lines(lines).unwrap();

        assert_eq!(res[0].0, 0);
        assert_eq!(res[0].1, "This is a line.");
    } else {
        panic!("test failed");
    }
}

#[test]
fn execute_query_with_keywords() {
    let instructions = Instructions::new().add_keyword("target".to_string());
    let query = Query::build(instructions);
    let lines = Lines::new(
        vec![
            "This is a line.".to_string(),
            "This line has the target.".to_string(),
        ]
        .into_iter()
        .enumerate()
        .collect(),
    );

    if let Ok(q) = query {
        let res = q.filter_lines(lines).unwrap();

        assert_eq!(res[0].0, 1);
        assert_eq!(res[0].1, "This line has the target.");
    } else {
        panic!("test failed");
    }
}

#[test]
fn execute_query_with_any_keywords() {
    let instructions = Instructions::new()
        .add_keyword("target".to_string())
        .add_keyword("line".to_string())
        .add_eval("any", None);
    let query = Query::build(instructions);
    let lines = three_lines();

    if let Ok(q) = query {
        let res = q.filter_lines(lines).unwrap();

        assert_eq!(res[0].0, 1);
        assert_eq!(res[0].1, "This is a line.");
        assert_eq!(res[1].0, 2);
        assert_eq!(res[1].1, "This has the target.");
    } else {
        panic!("test failed");
    }
}

#[test]
fn execute_query_with_line_range() {
    let instructions = Instructions::new().add_range("line-range", 1, 2);
    let query = Query::build(instructions);
    let lines = three_lines();

    if let Ok(q) = query {
        let res = q.filter_lines(lines).unwrap();

        assert_eq!(res[0].0, 1);
        assert_eq!(res[0].1, "This is a line.");
        assert_eq!(res[1].0, 2);
        assert_eq!(res[1].1, "This has the target.");
    } else {
        panic!("test failed");
    }
}

#[test]
fn execute_query_with_latest_overrided() {
    let instructions = Instructions::new().add_eval("latest", Some(2));
    let query = Query::build(instructions);
    let lines = three_lines();

    if let Ok(q) = query {
        let res = q.filter_lines(lines).unwrap();

        assert_eq!(res[0].0, 1);
        assert_eq!(res[0].1, "This is a line.");
        assert_eq!(res[1].0, 2);
        assert_eq!(res[1].1, "This has the target.");
    } else {
        panic!("test failed");
    }
}

#[test]
fn execute_query_with_head() {
    let instructions = Instructions::new().add_relative_range("head", 1);
    let query = Query::build(instructions);
    let lines = Lines::new(
        vec![
            "This should be in res.".to_string(),
            "This is a line.".to_string(),
            "This has the target.".to_string(),
        ]
        .into_iter()
        .enumerate()
        .collect(),
    );

    if let Ok(q) = query {
        let res = q.filter_lines(lines).unwrap();

        assert_eq!(res[0].0, 0);
        assert_eq!(res[0].1, "This should be in res.");
        assert_eq!(res.len(), 1);
    } else {
        panic!("test failed");
    }
}

#[test]
fn execute_query_with_tail() {
    let instructions = Instructions::new().add_relative_range("tail", 1);
    let query = Query::build(instructions);
    let lines = three_lines();

    if let Ok(q) = query {
        let res = q.filter_lines(lines).unwrap();

        assert_eq!(res[0].0, 2);
        assert_eq!(res[0].1, "This has the target.");
        assert_eq!(res.len(), 1);
    } else {
        panic!("test failed");
    }
}

#[test]
fn empty_criteria_keep_every_line() {
    let texts = ["alpha", "beta", "", "gamma"];
    let res = run(Instructions::new(), &texts);
    let expected: Vec<(usize, String)> = texts
        .iter()
        .enumerate()
        .map(|(i, t)| (i, t.to_string()))
        .collect();
    assert_eq!(res, expected);
}

#[test]
fn line_range_scenario() {
    let res = run(
        Instructions::new().add_range("line-range", 1, 2),
        &["first", "second", "third"],
    );
    assert_eq!(res, vec![(1, "second".to_string()), (2, "third".to_string())]);
}

#[test]
fn single_keyword_all_scenario() {
    let res = run(
        Instructions::new()
            .add_keyword("target".to_string())
            .add_eval("all", None),
        &["a line", "target line", "other"],
    );
    assert_eq!(res, vec![(1, "target line".to_string())]);
}

#[test]
fn two_keywords_any_scenario() {
    let res = run(
        Instructions::new()
            .add_keyword("line".to_string())
            .add_keyword("target".to_string())
            .add_eval("any", None),
        &["nothing here", "a line", "the target"],
    );
    assert_eq!(res, vec![(1, "a line".to_string()), (2, "the target".to_string())]);
}

#[test]
fn two_keywords_all_needs_both() {
    let res = run(
        Instructions::new()
            .add_keyword("line".to_string())
            .add_keyword("target".to_string()),
        &["a line", "target line", "the target"],
    );
    assert_eq!(res, vec![(1, "target line".to_string())]);
}

#[test]
fn keywords_are_case_sensitive() {
    let res = run(
        Instructions::new().add_keyword("Target".to_string()),
        &["target", "Target", "TARGET"],
    );
    assert_eq!(res, vec![(1, "Target".to_string())]);
}

#[test]
fn tail_one_scenario() {
    let res = run(
        Instructions::new().add_relative_range("tail", 1),
        &["one", "two", "three"],
    );
    assert_eq!(res, vec![(2, "three".to_string())]);
}

#[test]
fn head_longer_than_file_keeps_all() {
    let res = run(Instructions::new().add_relative_range("head", 10), &["a", "b"]);
    assert_eq!(res, vec![(0, "a".to_string()), (1, "b".to_string())]);
}

#[test]
fn head_zero_is_empty() {
    let res = run(Instructions::new().add_relative_range("head", 0), &["a", "b"]);
    assert!(res.is_empty());
}

#[test]
fn tail_on_empty_file_is_empty() {
    let res = run(Instructions::new().add_relative_range("tail", 5), &[]);
    assert!(res.is_empty());
}

#[test]
fn tail_two_of_four() {
    let res = run(
        Instructions::new().add_relative_range("tail", 2),
        &["a", "b", "c", "d"],
    );
    assert_eq!(res, vec![(2, "c".to_string()), (3, "d".to_string())]);
}

#[test]
fn inverted_line_range_is_empty_not_error() {
    let res = run(
        Instructions::new().add_range("line-range", 2, 1),
        &["a", "b", "c"],
    );
    assert!(res.is_empty());
}

#[test]
fn latest_trims_after_keywords() {
    let res = run(
        Instructions::new()
            .add_keyword("x".to_string())
            .add_eval("latest", Some(2)),
        &["x1", "y", "x2", "x3", "z"],
    );
    assert_eq!(res, vec![(2, "x2".to_string()), (3, "x3".to_string())]);
}

#[test]
fn latest_defaults_to_one() {
    let res = run(Instructions::new().add_eval("latest", None), &["a", "b", "c"]);
    assert_eq!(res, vec![(2, "c".to_string())]);
}

#[test]
fn latest_larger_than_result_keeps_all() {
    let res = run(
        Instructions::new().add_eval("latest", Some(9)),
        &["a", "b"],
    );
    assert_eq!(res.len(), 2);
}

#[test]
fn two_range_selectors_fail_to_build() {
    let instructions = Instructions::new()
        .add_relative_range("head", 5)
        .add_range("line-range", 0, 3);
    assert_eq!(
        Query::build(instructions).err(),
        Some(SelectionError::ConflictingRangeSelectors)
    );
}

#[test]
fn all_and_any_fail_to_build() {
    let instructions = Instructions::new().add_eval("all", None).add_eval("any", None);
    assert_eq!(
        Query::build(instructions).err(),
        Some(SelectionError::ConflictingEvalStrategy)
    );
}

#[test]
fn relative_bounds_are_half_open() {
    assert_eq!(create_relative_usize_range(&RangeKind::Head(2), 5), (0, 2));
    assert_eq!(create_relative_usize_range(&RangeKind::Tail(2), 5), (3, 5));
    assert_eq!(create_relative_usize_range(&RangeKind::Tail(9), 5), (0, 5));
    assert_eq!(create_relative_usize_range(&RangeKind::Head(0), 0), (0, 0));
}

#[test]
fn contains_checks_substrings() {
    let words = vec!["ab".to_string(), "cd".to_string()];
    assert!(string_contains_vec_elements("xxabcdyy", &words, &EvalKind::All));
    assert!(!string_contains_vec_elements("xxabyy", &words, &EvalKind::All));
    assert!(string_contains_vec_elements("xxabyy", &words, &EvalKind::Any));
    assert!(!string_contains_vec_elements("a b c d", &words, &EvalKind::Any));
    assert!(!string_contains_vec_elements("abcd", &words, &EvalKind::Latest(1)));
}

#[test]
fn stage_functions_on_empty_input() {
    let empty: Vec<(usize, String)> = Vec::new();
    assert!(filter_with_line_range(&empty, 0, 10).is_empty());
    assert!(filter_with_keywords(&empty, &["a".to_string()], &EvalKind::Any).is_empty());
    assert!(keep_latest(empty, 3).is_empty());
}
