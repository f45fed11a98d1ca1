//! Option groups supplied on the command line, and the rules on combining them.
use vstd::prelude::*;

use crate::query::SelectionError;

verus! {

/// Range selection options: at most one of them may be given.
pub struct RangeSelectionData {
    pub line_range: Option<Vec<usize>>,
    pub date_range: Option<Vec<String>>,
    pub head: Option<usize>,
    pub tail: Option<usize>,
}

/// How many of the range selections are given.
pub open spec fn range_selection_count(ranges: &RangeSelectionData) -> nat {
    (if ranges.line_range is Some { 1nat } else { 0nat }) + (if ranges.date_range is Some {
        1nat
    } else {
        0nat
    }) + (if ranges.head is Some { 1nat } else { 0nat }) + (if ranges.tail is Some {
        1nat
    } else {
        0nat
    })
}

impl Default for RangeSelectionData {
    fn default() -> (r: RangeSelectionData)
        ensures
            r.line_range is None,
            r.date_range is None,
            r.head is None,
            r.tail is None,
    {
        RangeSelectionData { line_range: None, date_range: None, head: None, tail: None }
    }
}

impl RangeSelectionData {
    /// Gathers the range selections, refusing more than one of them.
    pub fn new(
        line_range: Option<Vec<usize>>,
        date_range: Option<Vec<String>>,
        head: Option<usize>,
        tail: Option<usize>,
    ) -> (r: Result<RangeSelectionData, SelectionError>)
        ensures
            match r {
                Ok(d) => d.line_range == line_range && d.date_range == date_range && d.head
                    == head && d.tail == tail && range_selection_count(&d) <= 1,
                Err(e) => e == SelectionError::ConflictingRangeSelectors && range_selection_count(
                    &(RangeSelectionData { line_range, date_range, head, tail }),
                ) > 1,
            },
    {
        let ranges = RangeSelectionData { line_range, date_range, head, tail };
        match validate_range_selection_combinations(&ranges) {
            Ok(()) => Ok(ranges),
            Err(e) => Err(e),
        }
    }
}

/// Accepts range selections of which at most one is given.
pub fn validate_range_selection_combinations(ranges: &RangeSelectionData) -> (r: Result<
    (),
    SelectionError,
>)
    ensures
        r is Ok <==> range_selection_count(ranges) <= 1,
        r is Err ==> r == Err::<(), SelectionError>(SelectionError::ConflictingRangeSelectors),
{
    let mut count: usize = 0;
    if ranges.line_range.is_some() {
        count = count + 1;
    }
    if ranges.date_range.is_some() {
        count = count + 1;
    }
    if ranges.head.is_some() {
        count = count + 1;
    }
    if ranges.tail.is_some() {
        count = count + 1;
    }
    if count > 1 {
        Err(SelectionError::ConflictingRangeSelectors)
    } else {
        Ok(())
    }
}

/// Evaluation strategy options: "all" and "any" exclude each other.
pub struct EvaluationStrategyData {
    pub all: Option<bool>,
    pub any: Option<bool>,
    pub latest: Option<usize>,
}

/// Both "all" and "any" are asked for.
pub open spec fn conflicting_evals(all: Option<bool>, any: Option<bool>) -> bool {
    all == Some(true) && any == Some(true)
}

impl Default for EvaluationStrategyData {
    fn default() -> (r: EvaluationStrategyData)
        ensures
            r.all is None,
            r.any is None,
            r.latest is None,
    {
        EvaluationStrategyData { all: None, any: None, latest: None }
    }
}

fn copied<T: Copy>(v: Option<&T>) -> (r: Option<T>)
    ensures
        r == match v {
            Some(x) => Some(*x),
            None => None::<T>,
        },
{
    match v {
        Some(x) => Some(*x),
        None => None,
    }
}

impl EvaluationStrategyData {
    /// Gathers the evaluation strategies, refusing both "all" and "any".
    pub fn new(all: Option<&bool>, any: Option<&bool>, latest: Option<&usize>) -> (r: Result<
        EvaluationStrategyData,
        SelectionError,
    >)
        ensures
            match r {
                Ok(d) => {
                    &&& d.all == (match all {
                        Some(v) => Some(*v),
                        None => None::<bool>,
                    })
                    &&& d.any == (match any {
                        Some(v) => Some(*v),
                        None => None::<bool>,
                    })
                    &&& d.latest == (match latest {
                        Some(v) => Some(*v),
                        None => None::<usize>,
                    })
                    &&& !conflicting_evals(d.all, d.any)
                },
                Err(e) => e == SelectionError::ConflictingEvalStrategy && all == Some(&true) && any
                    == Some(&true),
            },
    {
        let evals = EvaluationStrategyData { all: copied(all), any: copied(any), latest: copied(latest) };
        match validate_evaluation_strategy_combinations(&evals) {
            Ok(()) => Ok(evals),
            Err(e) => Err(e),
        }
    }
}

/// Accepts strategies that do not ask for both "all" and "any".
pub fn validate_evaluation_strategy_combinations(evals: &EvaluationStrategyData) -> (r: Result<
    (),
    SelectionError,
>)
    ensures
        r is Ok <==> !conflicting_evals(evals.all, evals.any),
        r is Err ==> r == Err::<(), SelectionError>(SelectionError::ConflictingEvalStrategy),
{
    match (evals.all, evals.any) {
        (Some(true), Some(true)) => Err(SelectionError::ConflictingEvalStrategy),
        _ => Ok(()),
    }
}

} // verus!
