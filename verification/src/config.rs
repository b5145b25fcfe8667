//! The settings of one run.

use crate::source::{stdin_name, Source};
use vstd::prelude::*;

verus! {

/// Which lines of a source get a number.
#[derive(Clone, Copy, Debug, PartialEq, Eq, Structural)]
pub enum Numbering {
    /// No line is numbered.
    Off,
    /// Every line is numbered by its position in the source.
    AllLines,
    /// Only non-empty lines are numbered, and only they count.
    NonBlankLines,
}

/// What a `Config` holds, as mathematical values.
pub struct ConfigView {
    /// The names of the sources, in the order in which they are read.
    pub sources: Seq<Seq<char>>,
    /// Whether every line is numbered.
    pub number_all_lines: bool,
    /// Whether the non-empty lines are numbered.
    pub number_nonblank_lines: bool,
}

impl ConfigView {
    /// The two numbering flags are never set together, and there is at
    /// least one source.
    pub open spec fn valid(self) -> bool {
        &&& !(self.number_all_lines && self.number_nonblank_lines)
        &&& self.sources.len() >= 1
    }

    /// The numbering that the flags ask for. Numbering every line comes
    /// first.
    pub open spec fn numbering(self) -> Numbering {
        if self.number_all_lines {
            Numbering::AllLines
        } else if self.number_nonblank_lines {
            Numbering::NonBlankLines
        } else {
            Numbering::Off
        }
    }
}

/// The sources that are read where `files` were asked for: `files`, or
/// standard input alone where none was given.
pub open spec fn sources_or_stdin(files: Seq<Seq<char>>) -> Seq<Seq<char>> {
    if files.len() == 0 {
        seq![stdin_name()]
    } else {
        files
    }
}

/// The settings of one run: the sources in reading order and the two
/// numbering flags. Every value is valid in the sense of
/// [`ConfigView::valid`].
#[derive(Debug)]
pub struct Config {
    files: Vec<String>,
    number_lines: bool,
    number_nonblank_lines: bool,
}

impl View for Config {
    type V = ConfigView;

    closed spec fn view(&self) -> ConfigView {
        ConfigView {
            sources: self.files.deep_view(),
            number_all_lines: self.number_lines,
            number_nonblank_lines: self.number_nonblank_lines,
        }
    }
}

impl Config {
    #[verifier::type_invariant]
    spec fn well_formed(&self) -> bool {
        self@.valid()
    }

    /// Builds the settings of a run that reads `files` in order, or standard
    /// input where `files` is empty. There are no settings with both flags
    /// set.
    pub fn new(files: Vec<String>, number_lines: bool, number_nonblank_lines: bool) -> (config:
        Option<Config>)
        ensures
            config is None <==> number_lines && number_nonblank_lines,
            config matches Some(c) ==> c@ == (ConfigView {
                sources: sources_or_stdin(files.deep_view()),
                number_all_lines: number_lines,
                number_nonblank_lines: number_nonblank_lines,
            }) && c@.valid(),
    {
        if number_lines && number_nonblank_lines {
            return None;
        }
        let mut files = files;
        if files.len() == 0 {
            files.push(Source::stdin_text());
            assert(files.deep_view() =~= seq![stdin_name()]);
        }
        Some(Config { files, number_lines, number_nonblank_lines })
    }

    /// The names of the sources, in reading order; never empty.
    pub fn files(&self) -> (files: &Vec<String>)
        ensures
            files.deep_view() == self@.sources,
            files.len() >= 1,
    {
        proof {
            use_type_invariant(self);
        }
        &self.files
    }

    /// Whether every line is numbered.
    pub fn number_lines(&self) -> (flag: bool)
        ensures
            flag == self@.number_all_lines,
            flag ==> !self@.number_nonblank_lines,
    {
        proof {
            use_type_invariant(self);
        }
        self.number_lines
    }

    /// Whether the non-empty lines are numbered.
    pub fn number_nonblank_lines(&self) -> (flag: bool)
        ensures
            flag == self@.number_nonblank_lines,
            flag ==> !self@.number_all_lines,
    {
        proof {
            use_type_invariant(self);
        }
        self.number_nonblank_lines
    }

    /// The numbering that these settings ask for.
    pub fn numbering(&self) -> (numbering: Numbering)
        ensures
            numbering == self@.numbering(),
            self@.valid(),
    {
        proof {
            use_type_invariant(self);
        }
        if self.number_lines {
            Numbering::AllLines
        } else if self.number_nonblank_lines {
            Numbering::NonBlankLines
        } else {
            Numbering::Off
        }
    }
}

} // verus!
