//! What is written for the lines of one source.
//!
//! A line is written as it was read, or with a number in front. Numbers
//! start at one in every source. With [`Numbering::AllLines`] the number of a
//! line is its position; with [`Numbering::NonBlankLines`] empty lines are
//! written bare and do not count.

use crate::config::Numbering;
use crate::numbering::{format_number, numbered};
use vstd::prelude::*;
use vstd::string::*;

verus! {

/// How many of the first `k` lines are not empty.
pub open spec fn nonblank_count(lines: Seq<Seq<char>>, k: int) -> nat
    decreases k,
{
    if k <= 0 {
        0
    } else if lines[k - 1].len() > 0 {
        nonblank_count(lines, k - 1) + 1
    } else {
        nonblank_count(lines, k - 1)
    }
}

/// What is written for the line at index `k` (counted from zero) of a source
/// whose lines are `lines`.
pub open spec fn rendered_line(numbering: Numbering, lines: Seq<Seq<char>>, k: int) -> Seq<char> {
    match numbering {
        Numbering::Off => lines[k],
        Numbering::AllLines => numbered((k + 1) as nat, lines[k]),
        Numbering::NonBlankLines => if lines[k].len() > 0 {
            numbered(nonblank_count(lines, k + 1), lines[k])
        } else {
            Seq::empty()
        },
    }
}

/// What is written for a whole source: one output line for each line read.
pub open spec fn rendered(numbering: Numbering, lines: Seq<Seq<char>>) -> Seq<Seq<char>> {
    Seq::new(lines.len(), |k: int| rendered_line(numbering, lines, k))
}

/// Whether a line gets a number.
pub open spec fn is_numbered(numbering: Numbering, line: Seq<char>) -> bool {
    match numbering {
        Numbering::Off => false,
        Numbering::AllLines => true,
        Numbering::NonBlankLines => line.len() > 0,
    }
}

/// How many lines of a source are numbered once `line` has been written,
/// where `count` lines were numbered before it.
pub open spec fn count_after(numbering: Numbering, count: nat, line: Seq<char>) -> nat {
    if is_numbered(numbering, line) {
        count + 1
    } else {
        count
    }
}

/// What is written for `line` when `count` lines of its source were numbered
/// before it.
pub open spec fn written(numbering: Numbering, count: nat, line: Seq<char>) -> Seq<char> {
    if is_numbered(numbering, line) {
        numbered(count + 1, line)
    } else if numbering == Numbering::Off {
        line
    } else {
        Seq::empty()
    }
}

/// The number of lines numbered among the first `k` lines of a source.
pub open spec fn count_before(numbering: Numbering, lines: Seq<Seq<char>>, k: int) -> nat {
    match numbering {
        Numbering::Off => 0,
        Numbering::AllLines => if k <= 0 {
            0
        } else {
            k as nat
        },
        Numbering::NonBlankLines => nonblank_count(lines, k),
    }
}

/// The line counter of the source that is being read.
#[derive(Debug)]
pub struct LineNumberer {
    numbering: Numbering,
    count: u64,
}

impl LineNumberer {
    /// The numbering in force.
    pub closed spec fn numbering(&self) -> Numbering {
        self.numbering
    }

    /// How many lines of the current source were numbered so far.
    pub closed spec fn count(&self) -> nat {
        self.count as nat
    }

    /// A counter at the start of a source.
    pub fn new(numbering: Numbering) -> (numberer: LineNumberer)
        ensures
            numberer.numbering() == numbering,
            numberer.count() == 0,
    {
        LineNumberer { numbering, count: 0 }
    }

    /// Starts a new source: the next numbered line is line one again.
    pub fn restart(&mut self)
        ensures
            final(self).numbering() == old(self).numbering(),
            final(self).count() == 0,
    {
        self.count = 0;
    }

    /// Whether another line can be counted: the counter has not reached the
    /// largest number it can hold.
    pub fn has_room(&self) -> (room: bool)
        ensures
            room == (self.count() < u64::MAX),
    {
        self.count < u64::MAX
    }

    /// What is written for the next line of the current source. Counts the
    /// line where it is numbered.
    pub fn emit(&mut self, line: &str) -> (text: String)
        requires
            old(self).count() < u64::MAX,
        ensures
            final(self).numbering() == old(self).numbering(),
            final(self).count() == count_after(old(self).numbering(), old(self).count(), line@),
            text@ == written(old(self).numbering(), old(self).count(), line@),
    {
        let counted = match self.numbering {
            Numbering::Off => false,
            Numbering::AllLines => true,
            Numbering::NonBlankLines => line.unicode_len() > 0,
        };
        if counted {
            self.count = self.count + 1;
            let mut text = format_number(self.count);
            text.append(line);
            text
        } else {
            match self.numbering {
                Numbering::Off => String::from_str(line),
                _ => String::new(),
            }
        }
    }
}

/// Writing line `k` of a source after the lines before it gives what
/// [`rendered_line`] says, and leaves the count that line `k + 1` starts from.
pub proof fn lemma_written_is_rendered(numbering: Numbering, lines: Seq<Seq<char>>, k: int)
    requires
        0 <= k < lines.len(),
    ensures
        written(numbering, count_before(numbering, lines, k), lines[k]) == rendered_line(
            numbering,
            lines,
            k,
        ),
        count_after(numbering, count_before(numbering, lines, k), lines[k]) == count_before(
            numbering,
            lines,
            k + 1,
        ),
        count_before(numbering, lines, k) <= k,
{
    lemma_nonblank_count_bound(lines, k);
}

/// No more lines are non-empty than there are lines.
pub proof fn lemma_nonblank_count_bound(lines: Seq<Seq<char>>, k: int)
    requires
        0 <= k,
    ensures
        nonblank_count(lines, k) <= k,
    decreases k,
{
    if k > 0 {
        lemma_nonblank_count_bound(lines, k - 1);
    }
}

/// With every line numbered, the `k`-th line of a source, counted from one,
/// carries the number `k`, whether it is empty or not.
pub proof fn lemma_all_lines_numbered_by_position(lines: Seq<Seq<char>>, k: int)
    requires
        1 <= k <= lines.len(),
    ensures
        rendered(Numbering::AllLines, lines)[k - 1] == numbered(k as nat, lines[k - 1]),
{
}

/// With the non-empty lines numbered, an empty line is written as an empty
/// line and leaves the count as it was; a non-empty line carries the count
/// of the non-empty lines up to and including itself, which is one more than
/// the count before it.
pub proof fn lemma_nonblank_lines_numbered_by_count(lines: Seq<Seq<char>>, k: int)
    requires
        0 <= k < lines.len(),
    ensures
        nonblank_count(lines, 0) == 0,
        lines[k].len() == 0 ==> rendered(Numbering::NonBlankLines, lines)[k] == Seq::<char>::empty()
            && nonblank_count(lines, k + 1) == nonblank_count(lines, k),
        lines[k].len() > 0 ==> rendered(Numbering::NonBlankLines, lines)[k] == numbered(
            nonblank_count(lines, k) + 1,
            lines[k],
        ) && nonblank_count(lines, k + 1) == nonblank_count(lines, k) + 1,
{
}

/// The count of non-empty lines never falls within a source.
pub proof fn lemma_nonblank_count_monotone(lines: Seq<Seq<char>>, j: int, k: int)
    requires
        0 <= j <= k,
    ensures
        nonblank_count(lines, j) <= nonblank_count(lines, k),
    decreases k - j,
{
    if j < k {
        lemma_nonblank_count_monotone(lines, j, k - 1);
    }
}

/// Without numbering, the lines of a source are written as they were read.
pub proof fn lemma_unnumbered_is_verbatim(lines: Seq<Seq<char>>)
    ensures
        rendered(Numbering::Off, lines) == lines,
{
    assert(rendered(Numbering::Off, lines) =~= lines);
}

/// What is written for the lines of one source, in order.
pub fn render(numbering: Numbering, lines: &Vec<String>) -> (output: Vec<String>)
    ensures
        output.deep_view() == rendered(numbering, lines.deep_view()),
{
    let ghost model = lines.deep_view();
    let mut numberer = LineNumberer::new(numbering);
    let mut output: Vec<String> = Vec::new();
    let mut k: usize = 0;
    while k < lines.len()
        invariant
            k <= lines.len(),
            model == lines.deep_view(),
            numberer.numbering() == numbering,
            numberer.count() == count_before(numbering, model, k as int),
            output.len() == k,
            forall|j: int| 0 <= j < k ==> (#[trigger] output[j])@ == rendered_line(numbering, model, j),
        decreases lines.len() - k,
    {
        proof {
            lemma_written_is_rendered(numbering, model, k as int);
            assert(model[k as int] == lines[k as int]@);
        }
        let text = numberer.emit(lines[k].as_str());
        output.push(text);
        k = k + 1;
    }
    assert(output.deep_view() =~= rendered(numbering, model));
    output
}

} // verus!
