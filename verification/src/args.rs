//! From command-line tokens to the settings of a run.
//!
//! The tokens are parsed by `clap`. What it found is then turned into a
//! [`Config`] by [`resolve`], which is verified for everything a parse can
//! hand over.

use crate::config::{sources_or_stdin, Config, ConfigView};
use clap::{App, AppSettings, Arg};
use vstd::prelude::*;

verus! {

/// The parser's name for the positional source arguments.
pub const FILES: &'static str = "files";

/// The parser's name for the flag that numbers every line.
pub const LINE_NUMBERS: &'static str = "line_numbers";

/// The parser's name for the flag that numbers the non-empty lines.
pub const NONBLANK_LINES: &'static str = "nonblank_lines";

/// The refusal of a parse, as `clap` hands it out.
#[verifier::external_type_specification]
#[verifier::external_body]
pub struct ExClapError(clap::Error);

/// Why no settings came of the tokens.
#[derive(Debug)]
pub enum ArgsError {
    /// The tokens asked for the help or version text. What is held here
    /// belongs on standard output, and the process ends well. For the help
    /// it is the help text; for the version it is empty, as the parser has
    /// written the version itself.
    Displayed(String),
    /// The tokens are malformed. The message belongs on standard error, and
    /// the process ends with a failure.
    Usage(String),
    /// Both numbering flags were given.
    Conflict,
}

/// An `ArgsError` as mathematical values.
pub enum ArgsErrorView {
    /// Help or version text.
    Displayed(Seq<char>),
    /// The message for malformed tokens.
    Usage(Seq<char>),
    /// Both numbering flags were given.
    Conflict,
}

impl View for ArgsError {
    type V = ArgsErrorView;

    open spec fn view(&self) -> ArgsErrorView {
        match self {
            ArgsError::Displayed(text) => ArgsErrorView::Displayed(text@),
            ArgsError::Usage(message) => ArgsErrorView::Usage(message@),
            ArgsError::Conflict => ArgsErrorView::Conflict,
        }
    }
}

/// The message that is shown for both numbering flags together.
pub open spec fn conflict_message() -> Seq<char> {
    "The argument '--number' cannot be used with '--number-nonblank'"@
}

impl ArgsError {
    /// The text to show for this error.
    pub open spec fn spec_message(&self) -> Seq<char> {
        match self {
            ArgsError::Displayed(text) => text@,
            ArgsError::Usage(message) => message@,
            ArgsError::Conflict => conflict_message(),
        }
    }

    /// The text to show for this error.
    pub fn message(&self) -> (text: String)
        ensures
            text@ == self.spec_message(),
    {
        match self {
            ArgsError::Displayed(text) => text.clone(),
            ArgsError::Usage(message) => message.clone(),
            ArgsError::Conflict => String::from_str(
                "The argument '--number' cannot be used with '--number-nonblank'",
            ),
        }
    }

    /// Whether the process ends with a failure on this error: it does unless
    /// help or version text was asked for.
    pub fn is_failure(&self) -> (failure: bool)
        ensures
            failure == !(self is Displayed),
    {
        match self {
            ArgsError::Displayed(_) => false,
            _ => true,
        }
    }
}

/// What the parser finds in `tokens`, where it accepts them: the values of
/// the positional `files` if the argument occurred, whether the flag that
/// numbers every line occurred, and whether the flag that numbers the
/// non-empty lines did. `None` where the parser refuses the tokens, which
/// includes a request for the help or the version.
pub uninterp spec fn found_by_parser(tokens: Seq<Seq<char>>) -> Option<
    (Option<Seq<Seq<char>>>, bool, bool),
>;

/// Calls `clap::App::get_matches_from_safe` on `tokens`, for a parser that
/// knows the positional `files` (any number, `-` by default), the flag `-n`
/// / `--number`, which conflicts with the other, and the flag `-b` /
/// `--number-nonblank`; no token is taken for the program's name. What was
/// found is read with `clap::ArgMatches::values_of_lossy` and
/// `clap::ArgMatches::is_present`.
///
/// The contract claims that the tokens alone decide whether the parser
/// accepts them and what it finds, and gives that a name. Nothing is claimed
/// of a refusal: its text depends on the terminal, and on a request for the
/// version `clap` writes the version to standard output before it returns.
#[verifier::external_body]
fn parse_tokens(tokens: &Vec<String>) -> (parsed: Result<
    (Option<Vec<String>>, bool, bool),
    clap::Error,
>)
    ensures
        match parsed {
            Ok(found) => found_by_parser(tokens.deep_view()) == Some(
                (found.0.deep_view(), found.1, found.2),
            ),
            Err(_) => found_by_parser(tokens.deep_view()) is None,
        },
{
    let files = Arg::with_name(FILES).value_name("FILE").default_value("-")
        .multiple(true).help("Input files");
    let all = Arg::with_name(LINE_NUMBERS).short("n").long("number")
        .conflicts_with(NONBLANK_LINES).takes_value(false).help("Show line numbers");
    let nonblank = Arg::with_name(NONBLANK_LINES).short("b").long("number-nonblank")
        .takes_value(false).help("Number only non-blank lines");
    let found = App::new("rcat").version("0.1.0").about("Rust cat")
        .setting(AppSettings::NoBinaryName)
        .arg(files).arg(all).arg(nonblank)
        .get_matches_from_safe(tokens)?;
    Ok((found.values_of_lossy(FILES), found.is_present(LINE_NUMBERS), found.is_present(NONBLANK_LINES)))
}

/// Calls `clap::Error::use_stderr`: whether the refusal is an error, and
/// not help or version text.
#[verifier::external_body]
fn refusal_is_error(refusal: &clap::Error) -> (is_error: bool) {
    refusal.use_stderr()
}

/// Takes the field `message` out of a `clap::Error`.
#[verifier::external_body]
fn refusal_message(refusal: clap::Error) -> (message: String) {
    refusal.message
}

/// The error for a parse that was refused with `message`.
pub fn refused(is_error: bool, message: String) -> (error: ArgsError)
    ensures
        error@ == if is_error {
            ArgsErrorView::Usage(message@)
        } else {
            ArgsErrorView::Displayed(message@)
        },
{
    if is_error {
        ArgsError::Usage(message)
    } else {
        ArgsError::Displayed(message)
    }
}

/// Whether `result` is what a finished parse stands for. `files` are the
/// values found for the sources, if any were; the flags say which numbering
/// option occurred. Both together are refused, and without sources standard
/// input is read.
pub open spec fn resolved(
    files: Option<Seq<Seq<char>>>,
    line_numbers: bool,
    nonblank_lines: bool,
    result: Result<Config, ArgsError>,
) -> bool {
    &&& result is Err <==> line_numbers && nonblank_lines
    &&& result matches Err(error) ==> error@ == ArgsErrorView::Conflict
    &&& result matches Ok(config) ==> config@ == (ConfigView {
        sources: sources_or_stdin(
            match files {
                Some(found) => found,
                None => Seq::empty(),
            },
        ),
        number_all_lines: line_numbers,
        number_nonblank_lines: nonblank_lines,
    }) && config@.valid()
}

/// The settings that a finished parse stands for. `files` are the values
/// found for the sources, if any were; the flags say which numbering option
/// occurred. Both together are refused, and without sources standard input
/// is read.
pub fn resolve(files: Option<Vec<String>>, line_numbers: bool, nonblank_lines: bool) -> (result:
    Result<Config, ArgsError>)
    ensures
        resolved(files.deep_view(), line_numbers, nonblank_lines, result),
{
    let found = match files {
        Some(found) => found,
        None => Vec::new(),
    };
    assert(files is None ==> found.deep_view() =~= Seq::empty());
    match Config::new(found, line_numbers, nonblank_lines) {
        Some(config) => Ok(config),
        None => Err(ArgsError::Conflict),
    }
}

/// Parses command-line tokens (without the program's name) into the
/// settings of a run. Where the parser accepts the tokens, the result is
/// what [`resolve`] makes of what it found; where it refuses them, the
/// result is its refusal, as a usage error or as text to display. Settings
/// that come out are valid: they never hold both numbering flags, and they
/// name at least one source.
pub fn get_args(tokens: &Vec<String>) -> (result: Result<Config, ArgsError>)
    ensures
        result matches Ok(config) ==> config@.valid(),
        match found_by_parser(tokens.deep_view()) {
            Some(found) => resolved(found.0, found.1, found.2, result),
            None => result matches Err(error) && (error is Usage || error is Displayed),
        },
{
    match parse_tokens(tokens) {
        Ok(found) => resolve(found.0, found.1, found.2),
        Err(refusal) => {
            let is_error = refusal_is_error(&refusal);
            Err(refused(is_error, refusal_message(refusal)))
        },
    }
}

} // verus!
