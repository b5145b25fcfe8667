//! Where the lines of a source come from: standard input or a file.

use vstd::prelude::*;
use vstd::string::*;

verus! {

/// The source name that stands for standard input.
pub open spec fn stdin_name() -> Seq<char> {
    seq!['-']
}

/// An input stream, told apart by the name it was given under.
#[derive(Debug)]
pub enum Source {
    /// The standard input of the process.
    Stdin,
    /// The file at this path.
    File(String),
}

impl Source {
    /// The path of a file source.
    pub open spec fn path(&self) -> Option<Seq<char>> {
        match self {
            Source::Stdin => None,
            Source::File(path) => Some(path@),
        }
    }

    /// The stream that `name` stands for: standard input for `"-"`, and for
    /// every other name the file at that path.
    pub open spec fn named(name: Seq<char>) -> Option<Seq<char>> {
        if name == stdin_name() {
            None
        } else {
            Some(name)
        }
    }

    /// Tells which stream a source name stands for.
    pub fn from_name(name: &str) -> (source: Source)
        ensures
            source.path() == Source::named(name@),
            source is Stdin <==> name@ == stdin_name(),
    {
        if name.unicode_len() == 1 && name.get_char(0) == '-' {
            assert(name@ =~= stdin_name());
            Source::Stdin
        } else {
            Source::File(String::from_str(name))
        }
    }

    /// The name of standard input as a string.
    pub fn stdin_text() -> (name: String)
        ensures
            name@ == stdin_name(),
    {
        proof {
            reveal_strlit("-");
        }
        let name = String::from_str("-");
        assert(name@ =~= stdin_name());
        name
    }
}

} // verus!
