//! Command line option values and the query instructions they make.
use vstd::prelude::*;

use crate::query::{EvalKind, Instructions, RangeKind, SelectionError};

verus! {

/// The values of the command line options, as parsed.
pub struct Args {
    pub paths: Vec<std::path::PathBuf>,
    pub keywords: Option<Vec<String>>,
    pub head: Option<usize>,
    pub tail: Option<usize>,
    pub line_range: Option<Vec<usize>>,
    pub all: bool,
    pub any: bool,
    pub latest: Option<usize>,
}

/// The element of `o`, if any, as a sequence of zero or one.
pub open spec fn optional<T>(o: Option<T>) -> Seq<T> {
    match o {
        Some(x) => seq![x],
        None => Seq::empty(),
    }
}

/// The ranges asked for: head, tail, then the line range. One line range
/// value selects that line alone; values past the second are not read.
pub open spec fn ranges_of(head: Option<usize>, tail: Option<usize>, line_range: Option<Seq<usize>>) -> Seq<
    RangeKind,
> {
    optional(
        match head {
            Some(n) => Some(RangeKind::Head(n)),
            None => None,
        },
    ) + optional(
        match tail {
            Some(n) => Some(RangeKind::Tail(n)),
            None => None,
        },
    ) + optional(
        match line_range {
            Some(v) => if v.len() >= 2 {
                Some(RangeKind::LineRange(v[0], v[1]))
            } else {
                Some(RangeKind::LineRange(v[0], v[0]))
            },
            None => None,
        },
    )
}

/// The strategies asked for: "all", "any", then "latest".
pub open spec fn evals_of(all: bool, any: bool, latest: Option<usize>) -> Seq<EvalKind> {
    optional(if all { Some(EvalKind::All) } else { None }) + optional(
        if any { Some(EvalKind::Any) } else { None },
    ) + optional(
        match latest {
            Some(n) => Some(EvalKind::Latest(n)),
            None => None,
        },
    )
}

/// A line range option given with no value.
pub open spec fn empty_line_range(line_range: Option<Vec<usize>>) -> bool {
    line_range matches Some(v) && v@.len() == 0
}

/// The error the option values give, checked in this order: more than one
/// of head, tail and line range; both "all" and "any"; a line range with no
/// value. `None` when they make instructions.
pub open spec fn args_error(
    head: Option<usize>,
    tail: Option<usize>,
    line_range: Option<Vec<usize>>,
    all: bool,
    any: bool,
) -> Option<SelectionError> {
    let selectors = (if head is Some { 1int } else { 0int }) + (if tail is Some {
        1int
    } else {
        0int
    }) + (if line_range is Some { 1int } else { 0int });
    if selectors > 1 {
        Some(SelectionError::ConflictingRangeSelectors)
    } else if all && any {
        Some(SelectionError::ConflictingEvalStrategy)
    } else if empty_line_range(line_range) {
        Some(SelectionError::InvalidLineRange)
    } else {
        None
    }
}

impl Args {
    /// Creates query instructions from the option values, refusing more than
    /// one range selector, both "all" and "any", and a line range with no
    /// value.
    pub fn to_instructions(self) -> (r: Result<Instructions, SelectionError>)
        ensures
            match r {
                Ok(ins) => {
                    &&& args_error(self.head, self.tail, self.line_range, self.all, self.any)
                        is None
                    &&& ins.paths@ == self.paths@
                    &&& ins.keywords@ == match self.keywords {
                        Some(k) => k@,
                        None => Seq::empty(),
                    }
                    &&& ins.ranges@ == ranges_of(
                        self.head,
                        self.tail,
                        match self.line_range {
                            Some(v) => Some(v@),
                            None => None,
                        },
                    )
                    &&& ins.evals@ == evals_of(self.all, self.any, self.latest)
                },
                Err(e) => args_error(self.head, self.tail, self.line_range, self.all, self.any)
                    == Some(e),
            },
    {
        let selectors: usize = (if self.head.is_some() { 1 } else { 0 }) + (if self.tail.is_some() {
            1
        } else {
            0
        }) + (if self.line_range.is_some() { 1 } else { 0 });
        if selectors > 1 {
            return Err(SelectionError::ConflictingRangeSelectors);
        }
        if self.all && self.any {
            return Err(SelectionError::ConflictingEvalStrategy);
        }
        let mut ranges: Vec<RangeKind> = Vec::new();
        if let Some(n) = self.head {
            ranges.push(RangeKind::Head(n));
        }
        if let Some(n) = self.tail {
            ranges.push(RangeKind::Tail(n));
        }
        if let Some(v) = &self.line_range {
            if v.len() == 0 {
                return Err(SelectionError::InvalidLineRange);
            }
            let lower = v[0];
            let upper = if v.len() >= 2 {
                v[1]
            } else {
                lower
            };
            ranges.push(RangeKind::LineRange(lower, upper));
        }
        let mut evals: Vec<EvalKind> = Vec::new();
        if self.all {
            evals.push(EvalKind::All);
        }
        if self.any {
            evals.push(EvalKind::Any);
        }
        if let Some(n) = self.latest {
            evals.push(EvalKind::Latest(n));
        }
        assert(ranges@ =~= ranges_of(
            self.head,
            self.tail,
            match self.line_range {
                Some(v) => Some(v@),
                None => None,
            },
        ));
        assert(evals@ =~= evals_of(self.all, self.any, self.latest));
        let keywords = match self.keywords {
            Some(k) => k,
            None => Vec::new(),
        };
        Ok(Instructions { paths: self.paths, keywords, ranges, evals })
    }
}

} // verus!
