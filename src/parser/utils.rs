//! Conversions of option strings into parser options.
use vstd::prelude::*;

use crate::text::{parse_unsigned, parses_within, unsigned_value};

verus! {

/// The pieces of `s` between occurrences of `sep`; an empty string is one
/// empty piece.
pub open spec fn split_at_char(s: Seq<char>, sep: char) -> Seq<Seq<char>>
    decreases s.len(),
{
    if s.len() == 0 {
        seq![Seq::empty()]
    } else {
        let parts = split_at_char(s.drop_last(), sep);
        if s.last() == sep {
            parts.push(Seq::empty())
        } else {
            parts.update(parts.len() - 1, parts.last().push(s.last()))
        }
    }
}

/// The pieces of `s` between occurrences of `c` doubled, matched from the
/// left without overlap.
pub open spec fn split_at_double(s: Seq<char>, c: char) -> Seq<Seq<char>>
    decreases s.len(),
{
    if s.len() < 2 {
        seq![s]
    } else if s[0] == c && s[1] == c {
        seq![Seq::empty()] + split_at_double(s.skip(2), c)
    } else {
        let rest = split_at_double(s.drop_first(), c);
        rest.update(0, seq![s[0]] + rest[0])
    }
}

/// `p` put in front of the first piece.
pub open spec fn prepend_to_first(p: Seq<char>, parts: Seq<Seq<char>>) -> Seq<Seq<char>> {
    parts.update(0, p + parts[0])
}

proof fn lemma_split_at_char_nonempty(s: Seq<char>, sep: char)
    ensures
        split_at_char(s, sep).len() >= 1,
    decreases s.len(),
{
    if s.len() > 0 {
        lemma_split_at_char_nonempty(s.drop_last(), sep);
    }
}

proof fn lemma_split_at_double_nonempty(s: Seq<char>, c: char)
    ensures
        split_at_double(s, c).len() >= 1,
    decreases s.len(),
{
    if s.len() >= 2 {
        lemma_split_at_double_nonempty(s.skip(2), c);
        lemma_split_at_double_nonempty(s.drop_first(), c);
    }
}

/// Splits `s` at each `sep`.
pub fn split_chars(s: &str, sep: char) -> (r: Vec<String>)
    ensures
        r@.len() == split_at_char(s@, sep).len(),
        forall|j: int| 0 <= j < r@.len() ==> #[trigger] r@[j]@ == split_at_char(s@, sep)[j],
{
    let n = s.unicode_len();
    let mut done: Vec<String> = Vec::new();
    let mut start: usize = 0;
    let mut i: usize = 0;
    while i < n
        invariant
            n == s@.len(),
            start <= i <= n,
            split_at_char(s@.take(i as int), sep).len() == done@.len() + 1,
            forall|j: int|
                0 <= j < done@.len() ==> #[trigger] done@[j]@ == split_at_char(
                    s@.take(i as int),
                    sep,
                )[j],
            split_at_char(s@.take(i as int), sep)[done@.len() as int] == s@.subrange(
                start as int,
                i as int,
            ),
        decreases n - i,
    {
        let c = s.get_char(i);
        let ghost before = split_at_char(s@.take(i as int), sep);
        assert(s@.take(i + 1).drop_last() =~= s@.take(i as int));
        assert(s@.take(i + 1).last() == c);
        proof {
            lemma_split_at_char_nonempty(s@.take(i as int), sep);
        }
        if c == sep {
            let piece = String::from_str(s.substring_char(start, i));
            done.push(piece);
            start = i + 1;
            assert(s@.subrange(start as int, i + 1) =~= Seq::<char>::empty());
        } else {
            assert(s@.subrange(start as int, i + 1) =~= s@.subrange(start as int, i as int).push(
                c,
            ));
        }
        i = i + 1;
    }
    assert(s@.take(n as int) =~= s@);
    let last = String::from_str(s.substring_char(start, n));
    done.push(last);
    done
}

/// Splits `s` at each `c` doubled, matched from the left.
pub fn split_double(s: &str, c: char) -> (r: Vec<String>)
    ensures
        r@.len() == split_at_double(s@, c).len(),
        forall|j: int| 0 <= j < r@.len() ==> #[trigger] r@[j]@ == split_at_double(s@, c)[j],
{
    let n = s.unicode_len();
    let mut done: Vec<String> = Vec::new();
    let ghost parts: Seq<Seq<char>> = Seq::empty();
    let mut start: usize = 0;
    let mut i: usize = 0;
    assert(s@.skip(0) =~= s@);
    assert(s@.subrange(0, 0) =~= Seq::<char>::empty());
    proof {
        lemma_split_at_double_nonempty(s@, c);
        assert(prepend_to_first(Seq::empty(), split_at_double(s@, c)) =~= split_at_double(s@, c));
    }
    while n - i >= 2
        invariant
            n == s@.len(),
            start <= i <= n,
            done@.len() == parts.len(),
            forall|j: int| 0 <= j < done@.len() ==> #[trigger] done@[j]@ == parts[j],
            split_at_double(s@, c) == parts + prepend_to_first(
                s@.subrange(start as int, i as int),
                split_at_double(s@.skip(i as int), c),
            ),
        decreases n - i,
    {
        let a = s.get_char(i);
        let b = s.get_char(i + 1);
        let ghost p = s@.subrange(start as int, i as int);
        let ghost t = s@.skip(i as int);
        assert(t[0] == a && t[1] == b);
        if a == c && b == c {
            assert(t.skip(2) =~= s@.skip(i + 2));
            let ghost rest = split_at_double(s@.skip(i + 2), c);
            proof {
                lemma_split_at_double_nonempty(s@.skip(i + 2), c);
                assert(prepend_to_first(p, seq![Seq::empty()] + rest) =~= seq![p] + rest);
                assert(prepend_to_first(Seq::empty(), rest) =~= rest);
                assert(parts + (seq![p] + rest) =~= parts.push(p) + prepend_to_first(
                    Seq::empty(),
                    rest,
                ));
            }
            let piece = String::from_str(s.substring_char(start, i));
            done.push(piece);
            proof {
                parts = parts.push(p);
            }
            i = i + 2;
            start = i;
            assert(s@.subrange(start as int, i as int) =~= Seq::<char>::empty());
        } else {
            assert(t.drop_first() =~= s@.skip(i + 1));
            let ghost rest = split_at_double(s@.skip(i + 1), c);
            proof {
                lemma_split_at_double_nonempty(s@.skip(i + 1), c);
                assert(s@.subrange(start as int, i + 1) =~= p + seq![a]);
                assert(p + (seq![a] + rest[0]) =~= (p + seq![a]) + rest[0]);
                assert(prepend_to_first(p, rest.update(0, seq![a] + rest[0])) =~= prepend_to_first(
                    p + seq![a],
                    rest,
                ));
            }
            i = i + 1;
        }
    }
    let ghost t = s@.skip(i as int);
    assert(split_at_double(t, c) == seq![t]);
    assert(s@.subrange(start as int, i as int) + t =~= s@.subrange(start as int, n as int));
    assert(prepend_to_first(s@.subrange(start as int, i as int), seq![t]) =~= seq![
        s@.subrange(start as int, n as int),
    ]);
    let last = String::from_str(s.substring_char(start, n));
    done.push(last);
    assert(split_at_double(s@, c) =~= parts.push(s@.subrange(start as int, n as int)));
    done
}

/// A line range option: at least two colon-separated pieces, each an
/// unsigned decimal number that fits in a `u32`.
pub open spec fn is_line_range_text(s: Seq<char>) -> bool {
    let parts = split_at_char(s, ':');
    &&& parts.len() >= 2
    &&& forall|k: int| 0 <= k < parts.len() ==> parses_within(#[trigger] parts[k], u32::MAX as int)
}

/// Parses a line range array from a colon-delimited string ("0:100"):
/// the first two numbers.
pub fn string_to_line_range_array(string: Option<&String>) -> (r: Option<[u32; 2]>)
    requires
        string matches Some(s) ==> is_line_range_text(s@),
    ensures
        match string {
            Some(s) => r matches Some(a) && a@ == seq![
                unsigned_value(split_at_char(s@, ':')[0]) as u32,
                unsigned_value(split_at_char(s@, ':')[1]) as u32,
            ],
            None => r is None,
        },
{
    match string {
        None => None,
        Some(s) => {
            let parts = split_chars(s.as_str(), ':');
            let ghost spec_parts = split_at_char(s@, ':');
            assert(parses_within(spec_parts[0], u32::MAX as int));
            assert(parses_within(spec_parts[1], u32::MAX as int));
            let lower = parse_unsigned(parts[0].as_str(), 4294967295usize);
            let upper = parse_unsigned(parts[1].as_str(), 4294967295usize);
            match (lower, upper) {
                (Some(lo), Some(hi)) => {
                    let a: [u32; 2] = [lo as u32, hi as u32];
                    assert(a@ =~= seq![lo as u32, hi as u32]);
                    Some(a)
                },
                _ => None,
            }
        },
    }
}

/// Parses a date range array from a double-colon-delimited string
/// ("2022-01-01 08:00::2022-01-02 08:00"): the first two pieces.
pub fn string_to_date_range_array(string: Option<&String>) -> (r: Option<[String; 2]>)
    requires
        string matches Some(s) ==> split_at_double(s@, ':').len() >= 2,
    ensures
        match string {
            Some(s) => r matches Some(a) && a@[0]@ == split_at_double(s@, ':')[0] && a@[1]@
                == split_at_double(s@, ':')[1],
            None => r is None,
        },
{
    match string {
        None => None,
        Some(s) => {
            let parts = split_double(s.as_str(), ':');
            let a: [String; 2] = [parts[0].clone(), parts[1].clone()];
            Some(a)
        },
    }
}

/// The function named by an option string, as given.
pub fn string_to_function_string(string: Option<&String>) -> (r: Option<String>)
    ensures
        match string {
            Some(s) => r == Some(*s),
            None => r is None,
        },
{
    match string {
        Some(s) => Some(s.clone()),
        None => None,
    }
}

/// The file path named by an option string, as given.
pub fn string_to_filepath_string(string: &str) -> (r: String)
    ensures
        r@ == string@,
{
    String::from_str(string)
}

} // verus!
