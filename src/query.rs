//! Query instructions and the filter pipeline that applies them to lines.
use vstd::prelude::*;

use crate::lines::{EnumeratedLines, Line, Lines};
use crate::text::{has_substring, str_contains, str_eq};

verus! {

/// `std::path::PathBuf`, carried through the instructions without being
/// looked into.
#[verifier::external_type_specification]
#[verifier::external_body]
pub struct ExPathBuf(std::path::PathBuf);

/// Kinds of ranges that can be executed.
#[derive(Clone, Copy, Debug, PartialEq, Eq, Structural)]
pub enum RangeKind {
    /// Lines whose positions lie between a lower and an upper bound, inclusive.
    LineRange(usize, usize),
    /// The first N lines of the file.
    Head(usize),
    /// The last N lines of the file.
    Tail(usize),
}

/// Kinds of evaluation strategies.
#[derive(Clone, Copy, Debug, PartialEq, Eq, Structural)]
pub enum EvalKind {
    /// Keep a line that holds every keyword.
    All,
    /// Keep a line that holds at least one keyword.
    Any,
    /// Keep only the latest N lines that survive the other filters.
    Latest(usize),
}

/// Why a set of instructions cannot become a query.
#[derive(Clone, Copy, Debug, PartialEq, Eq, Structural)]
pub enum SelectionError {
    /// More than one of line range, head and tail was requested.
    ConflictingRangeSelectors,
    /// Both the "all" and the "any" strategy were requested.
    ConflictingEvalStrategy,
    /// A line range was given with no value, or with more than two.
    InvalidLineRange,
}

/// Instructions for a query to execute.
pub struct Instructions {
    pub paths: Vec<std::path::PathBuf>,
    pub keywords: Vec<String>,
    pub ranges: Vec<RangeKind>,
    pub evals: Vec<EvalKind>,
}

impl Default for Instructions {
    fn default() -> (r: Instructions)
        ensures
            r.paths@.len() == 0,
            r.keywords@.len() == 0,
            r.ranges@.len() == 0,
            r.evals@.len() == 0,
    {
        Instructions::new()
    }
}

impl Instructions {
    /// Creates unpopulated `Instructions`.
    pub fn new() -> (r: Instructions)
        ensures
            r.paths@.len() == 0,
            r.keywords@.len() == 0,
            r.ranges@.len() == 0,
            r.evals@.len() == 0,
    {
        Instructions { paths: Vec::new(), keywords: Vec::new(), ranges: Vec::new(), evals: Vec::new() }
    }

    /// Adds a path and returns the new `Instructions`.
    pub fn add_path(self, path: std::path::PathBuf) -> (r: Instructions)
        ensures
            r.paths@ == self.paths@.push(path),
            r.keywords@ == self.keywords@,
            r.ranges@ == self.ranges@,
            r.evals@ == self.evals@,
    {
        let mut instructions = self;
        instructions.paths.push(path);
        instructions
    }

    /// Adds a keyword and returns the new `Instructions`.
    pub fn add_keyword(self, word: String) -> (r: Instructions)
        ensures
            r.paths@ == self.paths@,
            r.keywords@ == self.keywords@.push(word),
            r.ranges@ == self.ranges@,
            r.evals@ == self.evals@,
    {
        let mut instructions = self;
        instructions.keywords.push(word);
        instructions
    }

    /// Adds a "line-range" range and returns the new `Instructions`.
    pub fn add_range(self, name: &str, lower: usize, upper: usize) -> (r: Instructions)
        requires
            name@ == "line-range"@,
        ensures
            r.paths@ == self.paths@,
            r.keywords@ == self.keywords@,
            r.ranges@ == self.ranges@.push(RangeKind::LineRange(lower, upper)),
            r.evals@ == self.evals@,
    {
        let mut instructions = self;
        instructions.ranges.push(RangeKind::LineRange(lower, upper));
        instructions
    }

    /// Adds a "head" or "tail" range and returns the new `Instructions`.
    pub fn add_relative_range(self, name: &str, val: usize) -> (r: Instructions)
        requires
            name@ == "head"@ || name@ == "tail"@,
        ensures
            r.paths@ == self.paths@,
            r.keywords@ == self.keywords@,
            r.ranges@ == self.ranges@.push(
                if name@ == "head"@ {
                    RangeKind::Head(val)
                } else {
                    RangeKind::Tail(val)
                },
            ),
            r.evals@ == self.evals@,
    {
        let mut instructions = self;
        let kind = if str_eq(name, "head") {
            RangeKind::Head(val)
        } else {
            RangeKind::Tail(val)
        };
        instructions.ranges.push(kind);
        instructions
    }

    /// Adds an "all", "any" or "latest" strategy and returns the new
    /// `Instructions`. "latest" keeps one line unless `val` says otherwise.
    pub fn add_eval(self, name: &str, val: Option<usize>) -> (r: Instructions)
        requires
            name@ == "all"@ || name@ == "any"@ || name@ == "latest"@,
        ensures
            r.paths@ == self.paths@,
            r.keywords@ == self.keywords@,
            r.ranges@ == self.ranges@,
            r.evals@ == self.evals@.push(
                if name@ == "all"@ {
                    EvalKind::All
                } else if name@ == "any"@ {
                    EvalKind::Any
                } else {
                    EvalKind::Latest(
                        match val {
                            Some(n) => n,
                            None => 1,
                        },
                    )
                },
            ),
    {
        let mut instructions = self;
        let kind = if str_eq(name, "all") {
            EvalKind::All
        } else if str_eq(name, "any") {
            EvalKind::Any
        } else {
            EvalKind::Latest(
                match val {
                    Some(n) => n,
                    None => 1,
                },
            )
        };
        instructions.evals.push(kind);
        instructions
    }
}

/// The first head or tail among `ranges`.
pub open spec fn first_relative(ranges: Seq<RangeKind>) -> Option<RangeKind>
    decreases ranges.len(),
{
    if ranges.len() == 0 {
        None
    } else {
        match ranges[0] {
            RangeKind::LineRange(..) => first_relative(ranges.drop_first()),
            k => Some(k),
        }
    }
}

/// The bounds of the first line range among `ranges`.
pub open spec fn first_absolute(ranges: Seq<RangeKind>) -> Option<(usize, usize)>
    decreases ranges.len(),
{
    if ranges.len() == 0 {
        None
    } else {
        match ranges[0] {
            RangeKind::LineRange(lower, upper) => Some((lower, upper)),
            _ => first_absolute(ranges.drop_first()),
        }
    }
}

/// The count of the first "latest" strategy among `evals`.
pub open spec fn first_latest(evals: Seq<EvalKind>) -> Option<usize>
    decreases evals.len(),
{
    if evals.len() == 0 {
        None
    } else {
        match evals[0] {
            EvalKind::Latest(n) => Some(n),
            _ => first_latest(evals.drop_first()),
        }
    }
}

/// "any" where it was asked for, else "all".
pub open spec fn primary_eval(evals: Seq<EvalKind>) -> EvalKind {
    if evals.contains(EvalKind::Any) {
        EvalKind::Any
    } else {
        EvalKind::All
    }
}

/// Instructions that a query accepts: at most one range, and not both
/// "all" and "any".
pub open spec fn valid_instructions(ranges: Seq<RangeKind>, evals: Seq<EvalKind>) -> bool {
    ranges.len() <= 1 && !(evals.contains(EvalKind::All) && evals.contains(EvalKind::Any))
}

/// The first `min(n, len)` lines.
pub open spec fn head_of(lines: Seq<Line>, n: usize) -> Seq<Line> {
    if n < lines.len() {
        lines.take(n as int)
    } else {
        lines
    }
}

/// The last `min(n, len)` lines.
pub open spec fn tail_of(lines: Seq<Line>, n: usize) -> Seq<Line> {
    if n < lines.len() {
        lines.skip(lines.len() - n)
    } else {
        lines
    }
}

/// A head or tail window; a line range here keeps every line.
pub open spec fn relative_stage(lines: Seq<Line>, kind: Option<RangeKind>) -> Seq<Line> {
    match kind {
        Some(RangeKind::Head(n)) => head_of(lines, n),
        Some(RangeKind::Tail(n)) => tail_of(lines, n),
        _ => lines,
    }
}

/// The line's position lies in `lower..=upper`.
pub open spec fn in_line_range(lower: usize, upper: usize) -> spec_fn(Line) -> bool {
    |l: Line| lower <= l.0 && l.0 <= upper
}

/// The lines whose positions lie in `bounds`, inclusive, if any are given.
pub open spec fn absolute_stage(lines: Seq<Line>, bounds: Option<(usize, usize)>) -> Seq<Line> {
    match bounds {
        Some((lower, upper)) => lines.filter(in_line_range(lower, upper)),
        None => lines,
    }
}

/// `text` holds the keywords as `eval` asks: every one for "all", at least
/// one for "any". "latest" is no keyword strategy and matches nothing.
pub open spec fn keywords_match(text: Seq<char>, keywords: Seq<String>, eval: EvalKind) -> bool {
    match eval {
        EvalKind::All => forall|j: int|
            0 <= j < keywords.len() ==> has_substring(text, #[trigger] keywords[j]@),
        EvalKind::Any => exists|j: int|
            0 <= j < keywords.len() && has_substring(text, #[trigger] keywords[j]@),
        EvalKind::Latest(_) => false,
    }
}

/// The line's text holds the keywords as `eval` asks.
pub open spec fn matches_keywords(keywords: Seq<String>, eval: EvalKind) -> spec_fn(Line) -> bool {
    |l: Line| keywords_match(l.1@, keywords, eval)
}

/// The lines that match the keywords; every line when there are none.
pub open spec fn keyword_stage(lines: Seq<Line>, keywords: Seq<String>, eval: EvalKind) -> Seq<
    Line,
> {
    if keywords.len() == 0 {
        lines
    } else {
        lines.filter(matches_keywords(keywords, eval))
    }
}

/// The last `n` lines when there are more than `n`; otherwise all of them.
pub open spec fn latest_stage(lines: Seq<Line>, latest: Option<usize>) -> Seq<Line> {
    match latest {
        Some(n) => if n < lines.len() {
            lines.skip(lines.len() - n)
        } else {
            lines
        },
        None => lines,
    }
}

/// The range stages: the first head or tail, then the first line range.
pub open spec fn range_stages(lines: Seq<Line>, ranges: Seq<RangeKind>) -> Seq<Line> {
    absolute_stage(relative_stage(lines, first_relative(ranges)), first_absolute(ranges))
}

/// The whole pipeline: range, then keywords, then latest-N.
pub open spec fn selected(
    lines: Seq<Line>,
    ranges: Seq<RangeKind>,
    keywords: Seq<String>,
    evals: Seq<EvalKind>,
) -> Seq<Line> {
    latest_stage(
        keyword_stage(range_stages(lines, ranges), keywords, primary_eval(evals)),
        first_latest(evals),
    )
}

/// Half-open bounds `[lower, upper)` of a head or tail window over `len`
/// lines; a line range spans every line.
pub open spec fn relative_bounds(kind: RangeKind, len: usize) -> (usize, usize) {
    match kind {
        RangeKind::Head(n) => if n < len {
            (0, n)
        } else {
            (0, len)
        },
        RangeKind::Tail(n) => if n < len {
            ((len - n) as usize, len)
        } else {
            (0, len)
        },
        RangeKind::LineRange(..) => (0, len),
    }
}

/// A validated query.
pub struct Query(Instructions);

impl Query {
    /// The instructions this query applies.
    pub closed spec fn spec_instructions(&self) -> &Instructions {
        &self.0
    }

    /// Builds a query from `Instructions`, refusing more than one range and
    /// both "all" and "any".
    pub fn build(instructions: Instructions) -> (r: Result<Query, SelectionError>)
        ensures
            instructions.ranges@.len() > 1 ==> r == Err::<Query, SelectionError>(
                SelectionError::ConflictingRangeSelectors,
            ),
            instructions.ranges@.len() <= 1 && instructions.evals@.contains(EvalKind::All)
                && instructions.evals@.contains(EvalKind::Any) ==> r == Err::<
                Query,
                SelectionError,
            >(SelectionError::ConflictingEvalStrategy),
            valid_instructions(instructions.ranges@, instructions.evals@) <==> r is Ok,
            r matches Ok(q) ==> *q.spec_instructions() == instructions,
    {
        if instructions.ranges.len() > 1 {
            return Err(SelectionError::ConflictingRangeSelectors);
        }
        if contains_eval(&instructions.evals, EvalKind::All) && contains_eval(
            &instructions.evals,
            EvalKind::Any,
        ) {
            return Err(SelectionError::ConflictingEvalStrategy);
        }
        Ok(Query(instructions))
    }

    /// Access to the query's `Instructions`.
    pub fn instructions(&self) -> (r: &Instructions)
        ensures
            *r == *self.spec_instructions(),
    {
        &self.0
    }

    /// Applies the instructions to enumerated lines: head or tail, line
    /// range, keywords, then latest-N, in that order.
    pub fn filter_lines(&self, lines: Lines) -> (r: Result<EnumeratedLines, SelectionError>)
        ensures
            r matches Ok(v) && v@ == selected(
                lines@,
                self.spec_instructions().ranges@,
                self.spec_instructions().keywords@,
                self.spec_instructions().evals@,
            ),
    {
        let instructions = self.instructions();
        let primary = primary_eval_of(&instructions.evals);
        let mut res = clone_lines(lines.enumerated_lines());

        let relative = find_relative(&instructions.ranges);
        if let Some(kind) = relative {
            let (lower, upper) = create_relative_usize_range(&kind, res.len());
            res = slice_lines(&res, lower, upper);
        }
        proof {
            let s = lines@;
            match first_relative(instructions.ranges@) {
                Some(RangeKind::Head(n)) => {
                    if n >= s.len() {
                        assert(s.subrange(0, s.len() as int) =~= s);
                    }
                },
                Some(RangeKind::Tail(n)) => {
                    if n >= s.len() {
                        assert(s.subrange(0, s.len() as int) =~= s);
                    }
                },
                _ => {},
            }
            assert(res@ =~= relative_stage(s, first_relative(instructions.ranges@)));
        }

        if let Some((lower, upper)) = find_absolute(&instructions.ranges) {
            res = filter_with_line_range(&res, lower, upper);
        }
        if instructions.keywords.len() > 0 {
            res = filter_with_keywords(&res, instructions.keywords.as_slice(), &primary);
        }
        if let Some(n) = find_latest(&instructions.evals) {
            res = keep_latest(res, n);
        }
        Ok(res)
    }
}

/// Whether `evals` holds `kind`.
fn contains_eval(evals: &Vec<EvalKind>, kind: EvalKind) -> (r: bool)
    ensures
        r == evals@.contains(kind),
{
    let mut i: usize = 0;
    while i < evals.len()
        invariant
            i <= evals@.len(),
            forall|j: int| 0 <= j < i ==> evals@[j] != kind,
        decreases evals@.len() - i,
    {
        if evals[i] == kind {
            return true;
        }
        i = i + 1;
    }
    false
}

/// "any" where it was asked for, else "all".
fn primary_eval_of(evals: &Vec<EvalKind>) -> (r: EvalKind)
    ensures
        r == primary_eval(evals@),
{
    if contains_eval(evals, EvalKind::Any) {
        EvalKind::Any
    } else {
        EvalKind::All
    }
}

/// The first head or tail among `ranges`.
fn find_relative(ranges: &Vec<RangeKind>) -> (r: Option<RangeKind>)
    ensures
        r == first_relative(ranges@),
{
    let mut i: usize = ranges.len();
    let mut found: Option<RangeKind> = None;
    while i > 0
        invariant
            i <= ranges@.len(),
            found == first_relative(ranges@.skip(i as int)),
        decreases i,
    {
        i = i - 1;
        assert(ranges@.skip(i as int).drop_first() =~= ranges@.skip(i + 1));
        match ranges[i] {
            RangeKind::LineRange(..) => {},
            k => {
                found = Some(k);
            },
        }
    }
    assert(ranges@.skip(0) =~= ranges@);
    found
}

/// The bounds of the first line range among `ranges`.
fn find_absolute(ranges: &Vec<RangeKind>) -> (r: Option<(usize, usize)>)
    ensures
        r == first_absolute(ranges@),
{
    let mut i: usize = ranges.len();
    let mut found: Option<(usize, usize)> = None;
    while i > 0
        invariant
            i <= ranges@.len(),
            found == first_absolute(ranges@.skip(i as int)),
        decreases i,
    {
        i = i - 1;
        assert(ranges@.skip(i as int).drop_first() =~= ranges@.skip(i + 1));
        match ranges[i] {
            RangeKind::LineRange(lower, upper) => {
                found = Some((lower, upper));
            },
            _ => {},
        }
    }
    assert(ranges@.skip(0) =~= ranges@);
    found
}

/// The count of the first "latest" strategy among `evals`.
fn find_latest(evals: &Vec<EvalKind>) -> (r: Option<usize>)
    ensures
        r == first_latest(evals@),
{
    let mut i: usize = evals.len();
    let mut found: Option<usize> = None;
    while i > 0
        invariant
            i <= evals@.len(),
            found == first_latest(evals@.skip(i as int)),
        decreases i,
    {
        i = i - 1;
        assert(evals@.skip(i as int).drop_first() =~= evals@.skip(i + 1));
        match evals[i] {
            EvalKind::Latest(n) => {
                found = Some(n);
            },
            _ => {},
        }
    }
    assert(evals@.skip(0) =~= evals@);
    found
}

fn clone_line(line: &Line) -> (r: Line)
    ensures
        r == *line,
{
    (line.0, line.1.clone())
}

pub(crate) fn clone_lines(lines: &EnumeratedLines) -> (r: EnumeratedLines)
    ensures
        r@ == lines@,
{
    slice_lines(lines, 0, lines.len())
}

/// Copies the lines at positions `lower..upper` of the sequence.
pub fn slice_lines(lines: &EnumeratedLines, lower: usize, upper: usize) -> (r: EnumeratedLines)
    requires
        lower <= upper <= lines@.len(),
    ensures
        r@ == lines@.subrange(lower as int, upper as int),
{
    let mut out: EnumeratedLines = Vec::new();
    let mut i: usize = lower;
    while i < upper
        invariant
            lower <= i <= upper,
            upper <= lines@.len(),
            out@ =~= lines@.subrange(lower as int, i as int),
        decreases upper - i,
    {
        out.push(clone_line(&lines[i]));
        i = i + 1;
        assert(out@ =~= lines@.subrange(lower as int, i as int));
    }
    out
}

/// Half-open bounds `[lower, upper)` of a head or tail window over `len`
/// lines. A head of 0 and an empty file both give an empty window.
pub fn create_relative_usize_range(kind: &RangeKind, len: usize) -> (r: (usize, usize))
    ensures
        r == relative_bounds(*kind, len),
        r.0 <= r.1 <= len,
{
    match kind {
        RangeKind::Head(n) => if *n < len {
            (0, *n)
        } else {
            (0, len)
        },
        RangeKind::Tail(n) => if *n < len {
            (len - *n, len)
        } else {
            (0, len)
        },
        RangeKind::LineRange(..) => (0, len),
    }
}

/// Keeps the lines whose positions lie in `lower..=upper`; none when
/// `lower > upper`.
pub fn filter_with_line_range(lines: &EnumeratedLines, lower: usize, upper: usize) -> (r:
    EnumeratedLines)
    ensures
        r@ == lines@.filter(in_line_range(lower, upper)),
{
    let mut out: EnumeratedLines = Vec::new();
    let mut i: usize = 0;
    while i < lines.len()
        invariant
            i <= lines@.len(),
            out@ == lines@.take(i as int).filter(in_line_range(lower, upper)),
        decreases lines@.len() - i,
    {
        let ghost pred = in_line_range(lower, upper);
        assert(lines@.take(i + 1) =~= lines@.take(i as int).push(lines@[i as int]));
        proof {
            lines@.take(i as int).lemma_filter_push(lines@[i as int], pred);
        }
        if lower <= lines[i].0 && lines[i].0 <= upper {
            out.push(clone_line(&lines[i]));
        }
        i = i + 1;
    }
    assert(lines@.take(i as int) =~= lines@);
    out
}

/// Whether `string` holds the keywords of `vec` as `eval` asks.
pub fn string_contains_vec_elements(string: &str, vec: &[String], eval: &EvalKind) -> (r: bool)
    ensures
        r == keywords_match(string@, vec@, *eval),
{
    match eval {
        EvalKind::All => {
            let mut i: usize = 0;
            while i < vec.len()
                invariant
                    i <= vec@.len(),
                    *eval == EvalKind::All,
                    forall|j: int| 0 <= j < i ==> has_substring(string@, #[trigger] vec@[j]@),
                decreases vec@.len() - i,
            {
                if !str_contains(string, vec[i].as_str()) {
                    assert(!has_substring(string@, vec@[i as int]@));
                    return false;
                }
                i = i + 1;
            }
            true
        },
        EvalKind::Any => {
            let mut i: usize = 0;
            while i < vec.len()
                invariant
                    i <= vec@.len(),
                    *eval == EvalKind::Any,
                    forall|j: int| 0 <= j < i ==> !has_substring(string@, #[trigger] vec@[j]@),
                decreases vec@.len() - i,
            {
                if str_contains(string, vec[i].as_str()) {
                    assert(has_substring(string@, vec@[i as int]@));
                    return true;
                }
                i = i + 1;
            }
            false
        },
        EvalKind::Latest(_) => false,
    }
}

/// Keeps the lines whose text holds the keywords as `eval` asks.
pub fn filter_with_keywords(lines: &EnumeratedLines, keywords: &[String], eval: &EvalKind) -> (r:
    EnumeratedLines)
    ensures
        r@ == lines@.filter(matches_keywords(keywords@, *eval)),
{
    let mut out: EnumeratedLines = Vec::new();
    let mut i: usize = 0;
    while i < lines.len()
        invariant
            i <= lines@.len(),
            out@ == lines@.take(i as int).filter(matches_keywords(keywords@, *eval)),
        decreases lines@.len() - i,
    {
        let ghost pred = matches_keywords(keywords@, *eval);
        assert(lines@.take(i + 1) =~= lines@.take(i as int).push(lines@[i as int]));
        proof {
            lines@.take(i as int).lemma_filter_push(lines@[i as int], pred);
        }
        if string_contains_vec_elements(lines[i].1.as_str(), keywords, eval) {
            out.push(clone_line(&lines[i]));
        }
        i = i + 1;
    }
    assert(lines@.take(i as int) =~= lines@);
    out
}

/// Keeps the last `n` lines when there are more than `n`.
pub fn keep_latest(lines: EnumeratedLines, n: usize) -> (r: EnumeratedLines)
    ensures
        r@ == latest_stage(lines@, Some(n)),
{
    if n < lines.len() {
        slice_lines(&lines, lines.len() - n, lines.len())
    } else {
        lines
    }
}

} // verus!
