use std::path::PathBuf;

use log_cli::args::Args;
use log_cli::query::{EvalKind, Query, RangeKind, SelectionError};

fn bare() -> Args {
    Args {
        paths: vec![PathBuf::from("sample.log")],
        keywords: None,
        head: None,
        tail: None,
        line_range: None,
        all: false,
        any: false,
        latest: None,
    }
}

#[test]
fn single_line_range_value_selects_one_line() {
    let mut args = bare();
    args.line_range = Some(vec![4]);
    let ins = args.to_instructions().unwrap();
    assert_eq!(ins.ranges, vec![RangeKind::LineRange(4, 4)]);
    assert_eq!(ins.paths, vec![PathBuf::from("sample.log")]);
}

#[test]
fn two_line_range_values_give_bounds() {
    let mut args = bare();
    args.line_range = Some(vec![20, 30]);
    let ins = args.to_instructions().unwrap();
    assert_eq!(ins.ranges, vec![RangeKind::LineRange(20, 30)]);
}

#[test]
fn empty_line_range_is_refused() {
    let mut args = bare();
    args.line_range = Some(vec![]);
    assert_eq!(args.to_instructions().err(), Some(SelectionError::InvalidLineRange));
}

#[test]
fn options_become_instructions_in_order() {
    let args = Args {
        paths: vec![PathBuf::from("a.log"), PathBuf::from("b.log")],
        keywords: Some(vec!["[debug]".to_string(), "[info]".to_string()]),
        head: None,
        tail: Some(5),
        line_range: None,
        all: false,
        any: true,
        latest: Some(3),
    };
    let ins = args.to_instructions().unwrap();
    assert_eq!(ins.paths.len(), 2);
    assert_eq!(ins.keywords, vec!["[debug]", "[info]"]);
    assert_eq!(ins.ranges, vec![RangeKind::Tail(5)]);
    assert_eq!(ins.evals, vec![EvalKind::Any, EvalKind::Latest(3)]);
    assert!(Query::build(ins).is_ok());
}

#[test]
fn head_with_line_range_fails_before_reading() {
    let mut args = bare();
    args.head = Some(5);
    args.line_range = Some(vec![0, 1]);
    assert_eq!(
        args.to_instructions().err(),
        Some(SelectionError::ConflictingRangeSelectors)
    );
}

#[test]
fn head_with_tail_is_refused() {
    let mut args = bare();
    args.head = Some(5);
    args.tail = Some(5);
    assert_eq!(
        args.to_instructions().err(),
        Some(SelectionError::ConflictingRangeSelectors)
    );
}

#[test]
fn all_with_any_is_refused() {
    let mut args = bare();
    args.all = true;
    args.any = true;
    assert_eq!(
        args.to_instructions().err(),
        Some(SelectionError::ConflictingEvalStrategy)
    );
}

#[test]
fn conflicting_selectors_come_before_an_empty_line_range() {
    let mut args = bare();
    args.tail = Some(1);
    args.line_range = Some(vec![]);
    args.all = true;
    args.any = true;
    assert_eq!(
        args.to_instructions().err(),
        Some(SelectionError::ConflictingRangeSelectors)
    );
}
