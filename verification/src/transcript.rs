//! A whole run: what is written for a list of sources, given what reading
//! each of them yielded.
//!
//! A source that cannot be opened costs one diagnostic and is skipped. A
//! source that fails while it is being read ends the run: the lines read up
//! to then are written, and no later source is touched.

use crate::config::{Config, ConfigView, Numbering};
use crate::emit::{lemma_unnumbered_is_verbatim, render, rendered, rendered_line};
use crate::numbering::numbered;
use vstd::prelude::*;
use vstd::string::*;

verus! {

/// What came of reading one source.
#[derive(Debug)]
pub enum Reading {
    /// The source could not be opened, for the cause given.
    Unopened(String),
    /// The source was opened. `lines` are the lines read from it, in order;
    /// `failure` is the cause for which reading broke off after them, if it
    /// did.
    Read { lines: Vec<String>, failure: Option<String> },
}

/// A `Reading` as mathematical values.
pub enum ReadingView {
    /// The source could not be opened, for the cause given.
    Unopened(Seq<char>),
    /// The lines read, and the cause for which reading broke off.
    Read { lines: Seq<Seq<char>>, failure: Option<Seq<char>> },
}

impl DeepView for Reading {
    type V = ReadingView;

    open spec fn deep_view(&self) -> ReadingView {
        match self {
            Reading::Unopened(cause) => ReadingView::Unopened(cause@),
            Reading::Read { lines, failure } => ReadingView::Read {
                lines: lines.deep_view(),
                failure: failure.deep_view(),
            },
        }
    }
}

/// Everything a run hands to the outside.
#[derive(Debug)]
pub struct Transcript {
    /// The lines for standard output, in order, without line terminators.
    pub output: Vec<String>,
    /// The lines for standard error, in order: one for each source that
    /// could not be opened.
    pub diagnostics: Vec<String>,
    /// The cause of the read failure that ended the run, if one did.
    pub failure: Option<String>,
}

/// A `Transcript` as mathematical values.
pub struct TranscriptView {
    /// The lines for standard output.
    pub output: Seq<Seq<char>>,
    /// The lines for standard error.
    pub diagnostics: Seq<Seq<char>>,
    /// The cause of the read failure that ended the run.
    pub failure: Option<Seq<char>>,
}

impl DeepView for Transcript {
    type V = TranscriptView;

    open spec fn deep_view(&self) -> TranscriptView {
        TranscriptView {
            output: self.output.deep_view(),
            diagnostics: self.diagnostics.deep_view(),
            failure: self.failure.deep_view(),
        }
    }
}

/// The diagnostic for a source that could not be opened.
pub open spec fn open_failure(name: Seq<char>, cause: Seq<char>) -> Seq<char> {
    "Failed to open "@ + name + ": "@ + cause
}

/// The transcript of a run before its first source.
pub open spec fn blank_transcript() -> TranscriptView {
    TranscriptView { output: Seq::empty(), diagnostics: Seq::empty(), failure: None }
}

/// The transcript `before`, extended by what the source `name` adds to it.
/// Nothing is added once the run has failed.
pub open spec fn after_source(
    numbering: Numbering,
    before: TranscriptView,
    name: Seq<char>,
    reading: ReadingView,
) -> TranscriptView {
    if before.failure is Some {
        before
    } else {
        match reading {
            ReadingView::Unopened(cause) => TranscriptView {
                diagnostics: before.diagnostics.push(open_failure(name, cause)),
                ..before
            },
            ReadingView::Read { lines, failure } => TranscriptView {
                output: before.output + rendered(numbering, lines),
                failure,
                ..before
            },
        }
    }
}

/// The transcript of a run over the first `n` sources.
pub open spec fn transcript(
    numbering: Numbering,
    names: Seq<Seq<char>>,
    readings: Seq<ReadingView>,
    n: int,
) -> TranscriptView
    decreases n,
{
    if n <= 0 {
        blank_transcript()
    } else {
        after_source(
            numbering,
            transcript(numbering, names, readings, n - 1),
            names[n - 1],
            readings[n - 1],
        )
    }
}

/// How many sources a run covers: those for which a reading is given.
pub open spec fn covered(names: Seq<Seq<char>>, readings: Seq<ReadingView>) -> int {
    if names.len() <= readings.len() {
        names.len() as int
    } else {
        readings.len() as int
    }
}

/// The transcript of a run under `config`, where reading the `i`-th source
/// yielded `readings[i]`.
pub open spec fn run_transcript(config: ConfigView, readings: Seq<ReadingView>) -> TranscriptView {
    transcript(config.numbering(), config.sources, readings, covered(config.sources, readings))
}

/// A run that has failed stays as it is, whatever sources follow.
pub proof fn lemma_failed_run_is_final(
    numbering: Numbering,
    names: Seq<Seq<char>>,
    readings: Seq<ReadingView>,
    i: int,
    n: int,
)
    requires
        0 <= i <= n,
        transcript(numbering, names, readings, i).failure is Some,
    ensures
        transcript(numbering, names, readings, n) == transcript(numbering, names, readings, i),
    decreases n - i,
{
    if i < n {
        lemma_failed_run_is_final(numbering, names, readings, i, n - 1);
    }
}

/// The lines read from the first `n` sources, one source after the other;
/// a source that could not be opened has none.
pub open spec fn lines_read(readings: Seq<ReadingView>, n: int) -> Seq<Seq<char>>
    decreases n,
{
    if n <= 0 {
        Seq::empty()
    } else {
        lines_read(readings, n - 1) + match readings[n - 1] {
            ReadingView::Unopened(_) => Seq::empty(),
            ReadingView::Read { lines, .. } => lines,
        }
    }
}

/// Whether none of the first `n` sources failed while it was read.
pub open spec fn no_read_failure(readings: Seq<ReadingView>, n: int) -> bool {
    forall|i: int|
        0 <= i < n ==> !(#[trigger] readings[i] matches ReadingView::Read { failure: Some(_), .. })
}

/// A run without a read failure ends without failure.
pub proof fn lemma_run_without_failure(
    numbering: Numbering,
    names: Seq<Seq<char>>,
    readings: Seq<ReadingView>,
    n: int,
)
    requires
        no_read_failure(readings, n),
    ensures
        transcript(numbering, names, readings, n).failure is None,
    decreases n,
{
    if n > 0 {
        lemma_run_without_failure(numbering, names, readings, n - 1);
        assert(!(readings[n - 1] matches ReadingView::Read { failure: Some(_), .. }));
    }
}

/// Without numbering, and where no source fails while it is read, the
/// output is the lines of the sources that could be opened, as they were
/// read and in the order of the sources.
pub proof fn lemma_unnumbered_run_is_concatenation(
    config: ConfigView,
    readings: Seq<ReadingView>,
)
    requires
        !config.number_all_lines,
        !config.number_nonblank_lines,
        no_read_failure(readings, covered(config.sources, readings)),
    ensures
        run_transcript(config, readings).output == lines_read(
            readings,
            covered(config.sources, readings),
        ),
{
    lemma_unnumbered_prefix(config.sources, readings, covered(config.sources, readings));
}

/// The statement of [`lemma_unnumbered_run_is_concatenation`] for the first
/// `n` sources.
proof fn lemma_unnumbered_prefix(names: Seq<Seq<char>>, readings: Seq<ReadingView>, n: int)
    requires
        no_read_failure(readings, n),
    ensures
        transcript(Numbering::Off, names, readings, n).output == lines_read(readings, n),
    decreases n,
{
    if n > 0 {
        lemma_unnumbered_prefix(names, readings, n - 1);
        lemma_run_without_failure(Numbering::Off, names, readings, n - 1);
        match readings[n - 1] {
            ReadingView::Unopened(_) => {
                assert(lines_read(readings, n) =~= lines_read(readings, n - 1));
            },
            ReadingView::Read { lines, .. } => {
                lemma_unnumbered_is_verbatim(lines);
            },
        }
    }
}

/// Numbers start anew in every source: what is written for the lines of a
/// source follows what was written before it, and depends on that source's
/// lines alone.
pub proof fn lemma_numbering_restarts_per_source(
    numbering: Numbering,
    before: TranscriptView,
    name: Seq<char>,
    lines: Seq<Seq<char>>,
    failure: Option<Seq<char>>,
    k: int,
)
    requires
        before.failure is None,
        0 <= k < lines.len(),
    ensures
        after_source(numbering, before, name, ReadingView::Read { lines, failure }).output[
            before.output.len() + k
        ] == rendered_line(numbering, lines, k),
        numbering == Numbering::AllLines && k == 0 ==> rendered_line(numbering, lines, k)
            == numbered(1, lines[0]),
{
}

/// A source that cannot be opened adds one diagnostic and nothing else, and
/// the run goes on.
pub proof fn lemma_unopened_source_is_skipped(
    numbering: Numbering,
    before: TranscriptView,
    name: Seq<char>,
    cause: Seq<char>,
)
    requires
        before.failure is None,
    ensures
        after_source(numbering, before, name, ReadingView::Unopened(cause)) == (TranscriptView {
            output: before.output,
            diagnostics: before.diagnostics.push(open_failure(name, cause)),
            failure: None,
        }),
{
}

/// The diagnostic line for a source that could not be opened.
pub fn open_failure_text(name: &str, cause: &str) -> (text: String)
    ensures
        text@ == open_failure(name@, cause@),
{
    let mut text = String::from_str("Failed to open ");
    text.append(name);
    text.append(": ");
    text.append(cause);
    text
}

/// Runs over the sources of `config`, where reading the `i`-th of them
/// yielded `readings[i]`, and returns all that is to be written.
pub fn run(config: &Config, readings: &Vec<Reading>) -> (result: Transcript)
    ensures
        result.deep_view() == run_transcript(config@, readings.deep_view()),
{
    let numbering = config.numbering();
    let files = config.files();
    let n: usize = if files.len() <= readings.len() {
        files.len()
    } else {
        readings.len()
    };
    let ghost names = files.deep_view();
    let ghost given = readings.deep_view();
    let mut result = Transcript { output: Vec::new(), diagnostics: Vec::new(), failure: None };
    assert(result.deep_view() =~= blank_transcript()) by {
        assert(result.output.deep_view() =~= Seq::empty());
        assert(result.diagnostics.deep_view() =~= Seq::empty());
    }
    let mut i: usize = 0;
    while i < n && result.failure.is_none()
        invariant
            i <= n,
            n == covered(names, given),
            names == files.deep_view(),
            given == readings.deep_view(),
            result.deep_view() == transcript(numbering, names, given, i as int),
        decreases n - i,
    {
        let ghost before = result.deep_view();
        assert(given[i as int] == readings[i as int].deep_view());
        assert(names[i as int] == files[i as int]@);
        match &readings[i] {
            Reading::Unopened(cause) => {
                let text = open_failure_text(files[i].as_str(), cause.as_str());
                result.diagnostics.push(text);
                assert(result.diagnostics.deep_view() =~= before.diagnostics.push(
                    open_failure(names[i as int], cause@),
                ));
            },
            Reading::Read { lines, failure } => {
                let mut more = render(numbering, lines);
                let ghost added = more.deep_view();
                result.output.append(&mut more);
                assert(result.output.deep_view() =~= before.output + added);
                result.failure =
                match failure {
                    Some(cause) => Some(cause.clone()),
                    None => None,
                };
            },
        }
        i = i + 1;
    }
    proof {
        if i < n {
            lemma_failed_run_is_final(numbering, names, given, i as int, n as int);
        }
    }
    result
}

} // verus!
