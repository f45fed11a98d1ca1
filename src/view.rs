//! The viewer: selects the lines of a file by its options and renders them.
use vstd::prelude::*;

use crate::command::{
    conflicting_evals, range_selection_count, validate_evaluation_strategy_combinations,
    validate_range_selection_combinations, EvaluationStrategyData, RangeSelectionData,
};
use crate::lines::{enumerate, render_lines, renders, EnumeratedLines, Line, Lines};
use crate::query::{
    absolute_stage, clone_lines, filter_with_keywords, filter_with_line_range, head_of,
    keep_latest, keyword_stage, latest_stage, matches_keywords, slice_lines, tail_of, EvalKind,
    SelectionError,
};
use crate::text::str_eq;

verus! {

/// Viewer used to select and render the lines of a file.
pub struct Viewer {
    pub keywords: Option<Vec<String>>,
    pub ranges: Option<RangeSelectionData>,
    pub evals: Option<EvaluationStrategyData>,
}

impl Default for Viewer {
    fn default() -> (r: Viewer)
        ensures
            r.keywords is None,
            r.ranges is None,
            r.evals is None,
    {
        Viewer { keywords: None, ranges: None, evals: None }
    }
}

/// "any" where it was asked for, else "all".
pub open spec fn viewer_eval(evals: Option<EvaluationStrategyData>) -> EvalKind {
    match evals {
        Some(e) => if e.any == Some(true) {
            EvalKind::Any
        } else {
            EvalKind::All
        },
        None => EvalKind::All,
    }
}

/// One value selects that line alone, two an inclusive range; none selects
/// every line.
pub open spec fn line_range_bounds(range: Seq<usize>) -> Option<(usize, usize)> {
    if range.len() == 1 {
        Some((range[0], range[0]))
    } else if range.len() == 2 {
        Some((range[0], range[1]))
    } else {
        None
    }
}

/// The lines left by the head, then the tail, as far as each is given.
pub open spec fn viewer_window(lines: Seq<Line>, ranges: RangeSelectionData) -> Seq<Line> {
    let headed = match ranges.head {
        Some(n) => head_of(lines, n),
        None => lines,
    };
    match ranges.tail {
        Some(n) => tail_of(headed, n),
        None => headed,
    }
}

/// Head, then tail, then line range, as far as each is given.
pub open spec fn viewer_range_stage(lines: Seq<Line>, ranges: RangeSelectionData) -> Seq<Line> {
    let windowed = viewer_window(lines, ranges);
    match ranges.line_range {
        Some(v) => absolute_stage(windowed, line_range_bounds(v@)),
        None => windowed,
    }
}

/// The lines the viewer keeps: ranges, then keywords, then latest-N.
pub open spec fn viewer_selection(viewer: &Viewer, lines: Seq<Line>) -> Seq<Line> {
    let ranged = match viewer.ranges {
        Some(r) => viewer_range_stage(lines, r),
        None => lines,
    };
    let matched = match viewer.keywords {
        Some(k) => keyword_stage(ranged, k@, viewer_eval(viewer.evals)),
        None => ranged,
    };
    match viewer.evals {
        Some(e) => latest_stage(matched, e.latest),
        None => matched,
    }
}

/// The viewer holds a line range of more than two values, and lines are
/// left for it after the head and tail: the viewer refuses to go on.
pub open spec fn bad_line_range(viewer: &Viewer, lines: Seq<Line>) -> bool {
    viewer.ranges matches Some(r) && r.line_range matches Some(v) && v@.len() > 2
        && viewer_window(lines, r).len() > 0
}

/// The viewer's options may be combined.
pub open spec fn valid_viewer(viewer: &Viewer) -> bool {
    &&& (viewer.evals matches Some(e) ==> !conflicting_evals(e.all, e.any))
    &&& (viewer.ranges matches Some(r) ==> range_selection_count(&r) <= 1)
}

impl Viewer {
    /// Builds a viewer, refusing options that may not be combined.
    pub fn new(
        keywords: Option<Vec<String>>,
        ranges: Option<RangeSelectionData>,
        evals: Option<EvaluationStrategyData>,
    ) -> (r: Result<Viewer, SelectionError>)
        ensures
            match r {
                Ok(v) => v == (Viewer { keywords, ranges, evals }) && valid_viewer(&v),
                Err(_) => !valid_viewer(&(Viewer { keywords, ranges, evals })),
            },
    {
        let viewer = Viewer { keywords, ranges, evals };
        match validate_viewer_combinations(&viewer) {
            Ok(()) => Ok(viewer),
            Err(e) => Err(e),
        }
    }

    /// Keeps the lines selected by a line range of one or two values.
    pub fn filter_with_line_range(&self, lines: &EnumeratedLines, range: &Vec<usize>) -> (r: Result<
        EnumeratedLines,
        SelectionError,
    >)
        ensures
            (lines@.len() > 0 && range@.len() > 2) <==> r is Err,
            r is Err ==> r == Err::<EnumeratedLines, SelectionError>(
                SelectionError::InvalidLineRange,
            ),
            r matches Ok(v) ==> v@ == absolute_stage(lines@, line_range_bounds(range@)),
    {
        if lines.len() == 0 {
            return Ok(Vec::new());
        }
        if range.len() > 2 {
            return Err(SelectionError::InvalidLineRange);
        }
        if range.len() == 1 {
            Ok(filter_with_line_range(lines, range[0], range[0]))
        } else if range.len() == 2 {
            Ok(filter_with_line_range(lines, range[0], range[1]))
        } else {
            Ok(clone_lines(lines))
        }
    }

    /// Keeps the lines holding the keywords as `eval` asks ("all" or "any");
    /// any other strategy keeps no line.
    pub fn filter_with_keywords(&self, lines: &EnumeratedLines, keywords: &[String], eval: &str) -> (r:
        Result<EnumeratedLines, SelectionError>)
        ensures
            r matches Ok(v) && v@ == (if eval@ == "all"@ {
                lines@.filter(matches_keywords(keywords@, EvalKind::All))
            } else if eval@ == "any"@ {
                lines@.filter(matches_keywords(keywords@, EvalKind::Any))
            } else {
                Seq::<Line>::empty()
            }),
    {
        if str_eq(eval, "all") {
            Ok(filter_with_keywords(lines, keywords, &EvalKind::All))
        } else if str_eq(eval, "any") {
            Ok(filter_with_keywords(lines, keywords, &EvalKind::Any))
        } else {
            Ok(Vec::new())
        }
    }

    /// Applies the viewer's options to enumerated lines.
    pub fn filter_lines(&self, lines: &EnumeratedLines) -> (r: Result<EnumeratedLines, SelectionError>)
        ensures
            bad_line_range(self, lines@) <==> r is Err,
            r is Err ==> r == Err::<EnumeratedLines, SelectionError>(
                SelectionError::InvalidLineRange,
            ),
            r matches Ok(v) ==> v@ == viewer_selection(self, lines@),
    {
        let eval = match &self.evals {
            Some(e) => match e.any {
                Some(true) => EvalKind::Any,
                _ => EvalKind::All,
            },
            None => EvalKind::All,
        };
        let mut res = clone_lines(lines);
        if let Some(ranges) = &self.ranges {
            if let Some(n) = ranges.head {
                if n < res.len() {
                    res = slice_lines(&res, 0, n);
                }
            }
            if let Some(n) = ranges.tail {
                if n < res.len() {
                    res = slice_lines(&res, res.len() - n, res.len());
                }
            }
            if let Some(range) = &ranges.line_range {
                match self.filter_with_line_range(&res, range) {
                    Ok(v) => {
                        res = v;
                    },
                    Err(e) => {
                        return Err(e);
                    },
                }
            }
        }
        if let Some(keywords) = &self.keywords {
            if keywords.len() > 0 {
                res = filter_with_keywords(&res, keywords.as_slice(), &eval);
            }
        }
        if let Some(evals) = &self.evals {
            if let Some(n) = evals.latest {
                res = keep_latest(res, n);
            }
        }
        Ok(res)
    }

    /// Selects lines from the texts of a file, numbered from 0, and renders
    /// them as display lines.
    pub fn display_with(&self, texts: Vec<String>) -> (r: Result<Vec<String>, SelectionError>)
        ensures
            bad_line_range(self, enumerate(texts@)) <==> r is Err,
            r is Err ==> r == Err::<Vec<String>, SelectionError>(
                SelectionError::InvalidLineRange,
            ),
            r matches Ok(out) ==> renders(out@, viewer_selection(self, enumerate(texts@))),
    {
        let lines = Lines::from_texts(texts);
        match self.filter_lines(lines.enumerated_lines()) {
            Ok(selected) => Ok(render_lines(&selected)),
            Err(e) => Err(e),
        }
    }
}

/// Refuses "all" together with "any", and more than one range selection.
pub fn validate_viewer_combinations(viewer: &Viewer) -> (r: Result<(), SelectionError>)
    ensures
        r is Ok <==> valid_viewer(viewer),
        r matches Err(e) ==> e == (if viewer.evals matches Some(ev) && conflicting_evals(
            ev.all,
            ev.any,
        ) {
            SelectionError::ConflictingEvalStrategy
        } else {
            SelectionError::ConflictingRangeSelectors
        }),
{
    if let Some(evals) = &viewer.evals {
        if let Err(e) = validate_evaluation_strategy_combinations(evals) {
            return Err(e);
        }
    }
    if let Some(ranges) = &viewer.ranges {
        if let Err(e) = validate_range_selection_combinations(ranges) {
            return Err(e);
        }
    }
    Ok(())
}

/// The command line application: a viewer built from the user's options.
pub struct LogCLI {
    viewer: Viewer,
}

impl LogCLI {
    /// The viewer the application runs.
    pub closed spec fn spec_viewer(&self) -> &Viewer {
        &self.viewer
    }

    /// Builds the application from the keywords, range selections and
    /// evaluation strategies, refusing options that may not be combined.
    pub fn new(
        keywords: Option<Vec<String>>,
        ranges: RangeSelectionData,
        evals: EvaluationStrategyData,
    ) -> (r: Result<LogCLI, SelectionError>)
        ensures
            match r {
                Ok(app) => *app.spec_viewer() == (Viewer {
                    keywords,
                    ranges: Some(ranges),
                    evals: Some(evals),
                }) && valid_viewer(app.spec_viewer()),
                Err(_) => !valid_viewer(
                    &(Viewer { keywords, ranges: Some(ranges), evals: Some(evals) }),
                ),
            },
    {
        match Viewer::new(keywords, Some(ranges), Some(evals)) {
            Ok(viewer) => Ok(LogCLI { viewer }),
            Err(e) => Err(e),
        }
    }

    /// Selects and renders the lines of one file, given as its texts.
    pub fn run(&self, texts: Vec<String>) -> (r: Result<Vec<String>, SelectionError>)
        ensures
            bad_line_range(self.spec_viewer(), enumerate(texts@)) <==> r is Err,
            r matches Ok(out) ==> renders(
                out@,
                viewer_selection(self.spec_viewer(), enumerate(texts@)),
            ),
    {
        self.viewer.display_with(texts)
    }
}

} // verus!
