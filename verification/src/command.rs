//! Splitting a command line into the program to run and its arguments.

use crate::error::{JobStartError, JobStartErrorView, ParseError, ParseErrorView};
use vstd::prelude::*;

verus! {

/// A command line split into the executable's name and its arguments.
#[derive(Debug)]
pub struct Command {
    /// The first word: the executable.
    pub program: String,
    /// The remaining words, in order.
    pub args: Vec<String>,
}

/// [`Command`] with its words as sequences of characters.
pub struct CommandView {
    pub program: Seq<char>,
    pub args: Seq<Seq<char>>,
}

/// The texts of a list of words.
pub open spec fn texts(words: Seq<String>) -> Seq<Seq<char>> {
    Seq::new(words.len(), |i: int| words[i]@)
}

impl View for Command {
    type V = CommandView;

    open spec fn view(&self) -> CommandView {
        CommandView { program: self.program@, args: texts(self.args@) }
    }
}

/// What `shellish_parse::parse` makes of `input` when unknown escapes are errors.
pub uninterp spec fn shellish_words(input: Seq<char>) -> Result<Seq<Seq<char>>, ParseErrorView>;

/// Nothing but spaces, tabs and newlines (the empty line included).
pub open spec fn is_blank(input: Seq<char>) -> bool {
    forall|i: int| 0 <= i < input.len() ==> input[i] == ' ' || input[i] == '\t' || input[i] == '\n'
}

/// How often `c` occurs in `input`.
pub open spec fn count(input: Seq<char>, c: char) -> nat
    decreases input.len(),
{
    if input.len() == 0 {
        0
    } else {
        count(input.drop_last(), c) + if input.last() == c {
            1nat
        } else {
            0nat
        }
    }
}

/// The other kind of quotation mark.
pub open spec fn other_quote(quote: char) -> char {
    if quote == '"' {
        '\''
    } else {
        '"'
    }
}

/// A line whose only special characters are quotation marks of one kind,
/// `quote`, in odd number: the last of them opens a string that never ends.
/// Such a line holds no backslash, no `#` and no quotation mark of the
/// other kind.
pub open spec fn unclosed_quote(input: Seq<char>, quote: char) -> bool {
    &&& quote == '"' || quote == '\''
    &&& count(input, quote) % 2 == 1
    &&& !input.contains('\\')
    &&& !input.contains('#')
    &&& !input.contains(other_quote(quote))
}

/// The outcome of a parse that found a string left open.
pub open spec fn dangling_string() -> Result<Seq<Seq<char>>, ParseErrorView> {
    Err(ParseErrorView::DanglingString)
}

/// The outcome of a parse that succeeded and found no word.
pub open spec fn no_words() -> Result<Seq<Seq<char>>, ParseErrorView> {
    Ok(Seq::empty())
}

/// A parse outcome with its words as sequences of characters.
pub open spec fn parsed_view(parsed: Result<Vec<String>, ParseError>) -> Result<
    Seq<Seq<char>>,
    ParseErrorView,
> {
    match parsed {
        Ok(words) => Ok(texts(words@)),
        Err(e) => Err(e@),
    }
}

/// A split outcome with its words as sequences of characters.
pub open spec fn outcome_view(out: Result<Command, JobStartError>) -> Result<
    CommandView,
    JobStartErrorView,
> {
    match out {
        Ok(command) => Ok(command@),
        Err(e) => Err(e@),
    }
}

/// The command that a parse outcome stands for: a malformed line is a
/// `Parse` failure and yields no word; a line without words is `NoCommand`;
/// otherwise the first word is the program and the rest are its arguments.
pub open spec fn command_of(parsed: Result<Seq<Seq<char>>, ParseErrorView>) -> Result<
    CommandView,
    JobStartErrorView,
> {
    match parsed {
        Err(e) => Err(JobStartErrorView::Parse(e)),
        Ok(words) => if words.len() == 0 {
            Err(JobStartErrorView::NoCommand)
        } else {
            Ok(CommandView { program: words[0], args: words.drop_first() })
        },
    }
}

/// Calls `shellish_parse::parse` with strict escapes. The contract names
/// the crate's result and adds two facts read off its source that callers
/// rely on. A line of spaces, tabs and newlines alone parses to no words.
/// And where quotation marks of one kind are the only special characters,
/// each of them opens or closes a string in turn, so that an odd number of
/// them leaves a string open, which is an error.
#[verifier::external_body]
fn shellish_parse_strict(input: &str) -> (out: Result<Vec<String>, ParseError>)
    ensures
        parsed_view(out) == shellish_words(input@),
        is_blank(input@) ==> parsed_view(out) == no_words(),
        forall|quote: char| unclosed_quote(input@, quote) ==> parsed_view(out) == dangling_string(),
{
    match shellish_parse::parse(input, true) {
        Ok(words) => Ok(words),
        Err(shellish_parse::ParseError::DanglingBackslash) => Err(ParseError::DanglingBackslash),
        Err(shellish_parse::ParseError::DanglingString) => Err(ParseError::DanglingString),
        Err(shellish_parse::ParseError::UnrecognizedEscape(seq)) => Err(
            ParseError::UnrecognizedEscape(seq),
        ),
    }
}

/// Turns the outcome of parsing a command line into a command.
pub fn command_from_words(parsed: Result<Vec<String>, ParseError>) -> (out: Result<
    Command,
    JobStartError,
>)
    ensures
        outcome_view(out) == command_of(parsed_view(parsed)),
{
    match parsed {
        Err(e) => Err(JobStartError::Parse(e)),
        Ok(words) => {
            if words.len() == 0 {
                Err(JobStartError::NoCommand)
            } else {
                let mut args = words;
                let program = args.remove(0);
                assert(texts(args@) =~= texts(words@).drop_first());
                Ok(Command { program, args })
            }
        },
    }
}

/// Splits a command line into program and arguments, honouring quotes and
/// backslash escapes.
pub fn parse_command(line: &str) -> (out: Result<Command, JobStartError>)
    ensures
        outcome_view(out) == command_of(shellish_words(line@)),
        is_blank(line@) ==> outcome_view(out) == Err::<CommandView, JobStartErrorView>(
            JobStartErrorView::NoCommand,
        ),
        forall|quote: char|
            unclosed_quote(line@, quote) ==> outcome_view(out) == Err::<
                CommandView,
                JobStartErrorView,
            >(JobStartErrorView::Parse(ParseErrorView::DanglingString)),
{
    command_from_words(shellish_parse_strict(line))
}

} // verus!
