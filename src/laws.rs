//! Laws of the filter pipeline, proved over the model that
//! `Query::filter_lines` is specified by.
use vstd::prelude::*;

use crate::lines::{enumerate, Line};
use crate::query::{
    first_absolute, first_latest, first_relative, in_line_range, keyword_stage, keywords_match, matches_keywords, primary_eval, range_stages,
    selected, valid_instructions, EvalKind, RangeKind,
};
use crate::text::has_substring;

verus! {

broadcast use {Seq::lemma_filter_pred, Seq::lemma_filter_contains, Seq::lemma_filter_contains_rev};

/// With no range, no keyword and no strategy, the pipeline returns the lines
/// unchanged.
pub proof fn lemma_empty_criteria_keep_all(lines: Seq<Line>)
    ensures
        selected(lines, Seq::empty(), Seq::empty(), Seq::empty()) == lines,
{
}

/// A head of `n` over a file of `len` lines returns exactly `min(n, len)`
/// lines, the ones at positions `0, 1, ...`.
pub proof fn lemma_head_window(texts: Seq<String>, n: usize)
    requires
        texts.len() <= usize::MAX,
    ensures
        ({
            let r = selected(enumerate(texts), seq![RangeKind::Head(n)], Seq::empty(), Seq::empty());
            let m = if n < texts.len() { n as int } else { texts.len() as int };
            &&& r.len() == m
            &&& forall|i: int| 0 <= i < m ==> #[trigger] r[i] == (i as usize, texts[i])
        }),
{
    let ranges = seq![RangeKind::Head(n)];
    assert(ranges.drop_first() =~= Seq::<RangeKind>::empty());
    assert(first_absolute(ranges) == first_absolute(ranges.drop_first()));
}

/// A tail of `n` over a file of `len` lines returns exactly `min(n, len)`
/// lines, the ones that end at position `len - 1`.
pub proof fn lemma_tail_window(texts: Seq<String>, n: usize)
    requires
        texts.len() <= usize::MAX,
    ensures
        ({
            let r = selected(enumerate(texts), seq![RangeKind::Tail(n)], Seq::empty(), Seq::empty());
            let len = texts.len() as int;
            let m = if n < len { n as int } else { len };
            &&& r.len() == m
            &&& forall|i: int|
                0 <= i < m ==> #[trigger] r[i] == ((len - m + i) as usize, texts[len - m + i])
        }),
{
    let ranges = seq![RangeKind::Tail(n)];
    assert(ranges.drop_first() =~= Seq::<RangeKind>::empty());
    assert(first_absolute(ranges) == first_absolute(ranges.drop_first()));
}

/// Under "all", a line is kept exactly when every keyword occurs in its text.
pub proof fn lemma_all_keeps_lines_with_every_keyword(lines: Seq<Line>, keywords: Seq<String>)
    ensures
        forall|x: Line|
            #[trigger] selected(lines, Seq::empty(), keywords, seq![EvalKind::All]).contains(x)
                <==> (lines.contains(x) && forall|j: int|
                0 <= j < keywords.len() ==> has_substring(x.1@, #[trigger] keywords[j]@)),
{
    let evals = seq![EvalKind::All];
    assert(!evals.contains(EvalKind::Any)) by {
        if evals.contains(EvalKind::Any) {
            let k = choose|k: int| 0 <= k < evals.len() && evals[k] == EvalKind::Any;
        }
    }
    assert(first_latest(evals) == first_latest(evals.drop_first()));
    let pred = matches_keywords(keywords, EvalKind::All);
    let r = selected(lines, Seq::empty(), keywords, evals);
    assert forall|x: Line| r.contains(x) <==> (lines.contains(x) && keywords_match(
        x.1@,
        keywords,
        EvalKind::All,
    )) by {
        if keywords.len() > 0 {
            assert(r == lines.filter(pred));
            if r.contains(x) {
                let i = choose|i: int| 0 <= i < r.len() && r[i] == x;
                assert(pred(lines.filter(pred)[i]));
            }
            if lines.contains(x) && keywords_match(x.1@, keywords, EvalKind::All) {
                let i = choose|i: int| 0 <= i < lines.len() && lines[i] == x;
                assert(pred(lines[i]));
                assert(lines.filter(pred).contains(lines[i]));
            }
        } else {
            assert(r == lines);
        }
    }
}

/// Under "any", with at least one keyword, a line is kept exactly when some
/// keyword occurs in its text.
pub proof fn lemma_any_keeps_lines_with_some_keyword(lines: Seq<Line>, keywords: Seq<String>)
    requires
        keywords.len() > 0,
    ensures
        forall|x: Line|
            #[trigger] selected(lines, Seq::empty(), keywords, seq![EvalKind::Any]).contains(x)
                <==> (lines.contains(x) && exists|j: int|
                0 <= j < keywords.len() && has_substring(x.1@, #[trigger] keywords[j]@)),
{
    let evals = seq![EvalKind::Any];
    assert(evals[0] == EvalKind::Any);
    assert(evals.contains(EvalKind::Any));
    assert(first_latest(evals) == first_latest(evals.drop_first()));
    let pred = matches_keywords(keywords, EvalKind::Any);
    let r = selected(lines, Seq::empty(), keywords, evals);
    assert(r == lines.filter(pred));
    assert forall|x: Line| r.contains(x) <==> (lines.contains(x) && keywords_match(
        x.1@,
        keywords,
        EvalKind::Any,
    )) by {
        if r.contains(x) {
            let i = choose|i: int| 0 <= i < r.len() && r[i] == x;
            assert(pred(lines.filter(pred)[i]));
        }
        if lines.contains(x) && keywords_match(x.1@, keywords, EvalKind::Any) {
            let i = choose|i: int| 0 <= i < lines.len() && lines[i] == x;
            assert(pred(lines[i]));
            assert(lines.filter(pred).contains(lines[i]));
        }
    }
}

/// A line range whose lower bound exceeds its upper bound is accepted and
/// selects no line.
pub proof fn lemma_inverted_line_range_is_empty(lines: Seq<Line>, a: usize, b: usize)
    requires
        a > b,
    ensures
        valid_instructions(seq![RangeKind::LineRange(a, b)], Seq::empty()),
        selected(lines, seq![RangeKind::LineRange(a, b)], Seq::empty(), Seq::empty()).len() == 0,
{
    let ranges = seq![RangeKind::LineRange(a, b)];
    assert(ranges.drop_first() =~= Seq::<RangeKind>::empty());
    let r = selected(lines, ranges, Seq::empty(), Seq::empty());
    let pred = in_line_range(a, b);
    assert(first_relative(ranges) == first_relative(ranges.drop_first()));
    assert(r == lines.filter(pred));
    if r.len() > 0 {
        assert(pred(lines.filter(pred)[0]));
    }
}

proof fn lemma_push_latest(evals: Seq<EvalKind>, n: usize)
    requires
        first_latest(evals) == None::<usize>,
    ensures
        first_latest(evals.push(EvalKind::Latest(n))) == Some(n),
        primary_eval(evals.push(EvalKind::Latest(n))) == primary_eval(evals),
    decreases evals.len(),
{
    let pushed = evals.push(EvalKind::Latest(n));
    if evals.len() > 0 {
        assert(pushed.drop_first() =~= evals.drop_first().push(EvalKind::Latest(n)));
        lemma_push_latest(evals.drop_first(), n);
    }
    if evals.contains(EvalKind::Any) {
        let k = choose|k: int| 0 <= k < evals.len() && evals[k] == EvalKind::Any;
        assert(pushed[k] == EvalKind::Any);
    }
    if pushed.contains(EvalKind::Any) {
        let k = choose|k: int| 0 <= k < pushed.len() && pushed[k] == EvalKind::Any;
        assert(k < evals.len());
        assert(evals[k] == EvalKind::Any);
    }
}

/// Adding "latest n" to any other filters keeps only the last `n` of the
/// lines those filters keep, in file order.
pub proof fn lemma_latest_trims_survivors(
    lines: Seq<Line>,
    ranges: Seq<RangeKind>,
    keywords: Seq<String>,
    evals: Seq<EvalKind>,
    n: usize,
)
    requires
        first_latest(evals) == None::<usize>,
    ensures
        ({
            let before = selected(lines, ranges, keywords, evals);
            let after = selected(lines, ranges, keywords, evals.push(EvalKind::Latest(n)));
            let m = if n < before.len() { n as int } else { before.len() as int };
            after == before.skip(before.len() - m)
        }),
{
    lemma_push_latest(evals, n);
    let before = selected(lines, ranges, keywords, evals);
    assert(before == keyword_stage(range_stages(lines, ranges), keywords, primary_eval(evals)));
    if n >= before.len() {
        assert(before.skip(0) =~= before);
    }
}

} // verus!
