//! Enumerated lines of a file and their rendering with padded line numbers.
use vstd::prelude::*;

use crate::text::{append_decimal, append_zero_padded, decimal_text, decimal_width, zero_padded};

verus! {

/// One line of a file: its 0-based position in the file and its text.
pub type Line = (usize, String);

/// Lines paired with their positions in the file.
pub type EnumeratedLines = Vec<Line>;

/// Collected and enumerated line strings.
pub struct Lines(EnumeratedLines);

impl View for Lines {
    type V = Seq<Line>;

    closed spec fn view(&self) -> Seq<Line> {
        self.0@
    }
}

/// The texts of a file numbered from 0 in order.
pub open spec fn enumerate(texts: Seq<String>) -> Seq<Line> {
    Seq::new(texts.len(), |i: int| (i as usize, texts[i]))
}

impl Lines {
    /// Creates `Lines` from already enumerated lines.
    pub fn new(lines: EnumeratedLines) -> (r: Lines)
        ensures
            r@ == lines@,
    {
        Lines(lines)
    }

    /// Creates `Lines` from the texts of a file, numbering them from 0.
    pub fn from_texts(texts: Vec<String>) -> (r: Lines)
        ensures
            r@ == enumerate(texts@),
    {
        let mut lines: EnumeratedLines = Vec::new();
        let mut rest = texts;
        let ghost all = rest@;
        let n = rest.len();
        let mut i: usize = 0;
        // Move each text out from the back, then restore the order.
        let mut reversed: Vec<String> = Vec::new();
        while rest.len() > 0
            invariant
                all.len() == n,
                rest@ == all.take(rest@.len() as int),
                reversed@.len() + rest@.len() == n,
                forall|j: int|
                    0 <= j < reversed@.len() ==> #[trigger] reversed@[j] == all[n - 1 - j],
            decreases rest@.len(),
        {
            let t = rest.pop().unwrap();
            reversed.push(t);
            assert(rest@ =~= all.take(rest@.len() as int));
        }
        while i < n
            invariant
                all.len() == n,
                i + reversed@.len() == n,
                forall|j: int|
                    0 <= j < reversed@.len() ==> #[trigger] reversed@[j] == all[n - 1 - j],
                lines@ =~= enumerate(all).take(i as int),
            decreases n - i,
        {
            let t = reversed.pop().unwrap();
            assert(t == all[i as int]);
            lines.push((i, t));
            i = i + 1;
            assert(lines@ =~= enumerate(all).take(i as int));
        }
        assert(enumerate(all).take(n as int) =~= enumerate(all));
        Lines(lines)
    }

    /// Access enumerated lines collected.
    pub fn enumerated_lines(&self) -> (r: &EnumeratedLines)
        ensures
            r@ == self@,
    {
        &self.0
    }

    /// Update wrapped enumerated lines.
    pub fn set_lines(&mut self, lines: EnumeratedLines)
        ensures
            final(self)@ == lines@,
    {
        self.0 = lines;
    }

    /// The display lines, `ln<padded index> <text>` each, in order.
    pub fn render(&self) -> (r: Vec<String>)
        ensures
            renders(r@, self@),
    {
        render_lines(&self.0)
    }
}

/// The largest position among `lines`, 0 for none.
pub open spec fn max_index(lines: Seq<Line>) -> nat
    decreases lines.len(),
{
    if lines.len() == 0 {
        0
    } else {
        let rest = max_index(lines.drop_last());
        if lines.last().0 as nat > rest {
            lines.last().0 as nat
        } else {
            rest
        }
    }
}

/// The number of digits of the largest displayed position, so that all
/// displayed line numbers align.
pub open spec fn line_number_width(lines: Seq<Line>) -> nat {
    decimal_text(max_index(lines)).len()
}

/// `out` holds the display lines of `lines`, one for each, in order, with
/// positions padded to the width of the largest displayed position.
pub open spec fn renders(out: Seq<String>, lines: Seq<Line>) -> bool {
    &&& out.len() == lines.len()
    &&& forall|i: int|
        0 <= i < out.len() ==> #[trigger] out[i]@ == rendered_line(
            lines[i],
            line_number_width(lines),
        )
}

/// `ln<position padded to width> <text>`.
pub open spec fn rendered_line(line: Line, width: nat) -> Seq<char> {
    seq!['l', 'n'] + zero_padded(line.0 as nat, width) + seq![' '] + line.1@
}

/// Computes the largest position among `lines`.
fn largest_index(lines: &EnumeratedLines) -> (r: usize)
    ensures
        r as nat == max_index(lines@),
{
    let mut m: usize = 0;
    let mut i: usize = 0;
    while i < lines.len()
        invariant
            i <= lines@.len(),
            m as nat == max_index(lines@.take(i as int)),
        decreases lines@.len() - i,
    {
        assert(lines@.take(i + 1).drop_last() =~= lines@.take(i as int));
        if lines[i].0 > m {
            m = lines[i].0;
        }
        i = i + 1;
    }
    assert(lines@.take(i as int) =~= lines@);
    m
}

/// Renders one line as `ln<position padded to width> <text>`.
pub fn render_line(line: &Line, width: usize) -> (r: String)
    ensures
        r@ == rendered_line(*line, width as nat),
{
    let mut out = String::new();
    let prefix = "ln";
    let gap = " ";
    proof {
        reveal_strlit("ln");
        reveal_strlit(" ");
    }
    out.append(prefix);
    append_zero_padded(&mut out, line.0, width);
    out.append(gap);
    out.append(line.1.as_str());
    assert(out@ =~= rendered_line(*line, width as nat));
    out
}

/// Renders each line with its position padded to the width of the largest
/// displayed position. No lines give no output.
pub fn render_lines(lines: &EnumeratedLines) -> (r: Vec<String>)
    ensures
        renders(r@, lines@),
{
    let width = decimal_width(largest_index(lines));
    let mut out: Vec<String> = Vec::new();
    let mut i: usize = 0;
    while i < lines.len()
        invariant
            i <= lines@.len(),
            width as nat == line_number_width(lines@),
            out@.len() == i,
            forall|j: int|
                0 <= j < i ==> #[trigger] out@[j]@ == rendered_line(lines@[j], width as nat),
        decreases lines@.len() - i,
    {
        out.push(render_line(&lines[i], width));
        i = i + 1;
    }
    out
}

/// The header shown before the lines of each of several files.
pub open spec fn file_header_text(position: nat, count: nat, path: Seq<char>) -> Seq<char> {
    seq!['F', 'i', 'l', 'e', ' ', '('] + decimal_text(position + 1) + seq!['/'] + decimal_text(
        count,
    ) + seq![')', ':', ' '] + path
}

/// Renders `File (<position + 1>/<count>): <path>` for the file at the
/// 0-based `position` among `count` files.
pub fn file_header(position: usize, count: usize, path: &str) -> (r: String)
    requires
        position < count,
    ensures
        r@ == file_header_text(position as nat, count as nat, path@),
{
    let mut out = String::new();
    let open = "File (";
    let slash = "/";
    let close = "): ";
    proof {
        reveal_strlit("File (");
        reveal_strlit("/");
        reveal_strlit("): ");
    }
    out.append(open);
    append_decimal(&mut out, position + 1);
    out.append(slash);
    append_decimal(&mut out, count);
    out.append(close);
    out.append(path);
    assert(out@ =~= file_header_text(position as nat, count as nat, path@));
    out
}

} // verus!
