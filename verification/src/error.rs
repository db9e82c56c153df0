//! Why a job could not be started, and how the text of a failed spawn is
//! mapped onto that taxonomy.

use crate::text::{absent, chars_of, find, first_occurrence, matches_at, occurs_at};
use vstd::prelude::*;
use vstd::string::*;

verus! {

/// Why a command line could not be split into words.
#[derive(Clone, Debug)]
pub enum ParseError {
    /// The command line ended with an unescaped backslash.
    DanglingBackslash,
    /// A quoted string was still open when the command line ended.
    DanglingString,
    /// A backslash was followed by a letter that names no escape.
    UnrecognizedEscape(String),
}

/// [`ParseError`] with its text as a sequence of characters.
pub enum ParseErrorView {
    DanglingBackslash,
    DanglingString,
    UnrecognizedEscape(Seq<char>),
}

impl View for ParseError {
    type V = ParseErrorView;

    open spec fn view(&self) -> ParseErrorView {
        match self {
            ParseError::DanglingBackslash => ParseErrorView::DanglingBackslash,
            ParseError::DanglingString => ParseErrorView::DanglingString,
            ParseError::UnrecognizedEscape(seq) => ParseErrorView::UnrecognizedEscape(seq@),
        }
    }
}

/// Why a job did not start.
#[derive(Clone, Debug)]
pub enum JobStartError {
    /// A low-level failure that fits none of the other kinds; holds its text.
    Io(String),
    /// The command line holds no word at all.
    NoCommand,
    /// The executable does not exist.
    NotFound,
    /// The file exists but may not be executed.
    NotExecutable,
    /// The path names a directory.
    IsDir,
    /// The command line is malformed.
    Parse(ParseError),
}

/// [`JobStartError`] with its texts as sequences of characters.
pub enum JobStartErrorView {
    Io(Seq<char>),
    NoCommand,
    NotFound,
    NotExecutable,
    IsDir,
    Parse(ParseErrorView),
}

impl View for JobStartError {
    type V = JobStartErrorView;

    open spec fn view(&self) -> JobStartErrorView {
        match self {
            JobStartError::Io(text) => JobStartErrorView::Io(text@),
            JobStartError::NoCommand => JobStartErrorView::NoCommand,
            JobStartError::NotFound => JobStartErrorView::NotFound,
            JobStartError::NotExecutable => JobStartErrorView::NotExecutable,
            JobStartError::IsDir => JobStartErrorView::IsDir,
            JobStartError::Parse(e) => JobStartErrorView::Parse(e@),
        }
    }
}

/// The word after which a spawn failure states its reason.
pub open spec fn because() -> Seq<char> {
    "because"@
}

/// Reason given when the search path holds no candidate.
pub open spec fn no_candidates() -> Seq<char> {
    "No viable candidates found in PATH"@
}

/// Reason given when the file is missing.
pub open spec fn not_exists() -> Seq<char> {
    " it does not exist"@
}

/// Reason given when the file lacks the permission to execute.
pub open spec fn not_executable() -> Seq<char> {
    " it is not executable"@
}

/// Reason given when the path is a directory.
pub open spec fn is_directory() -> Seq<char> {
    " it is a directory"@
}

/// Where the reason begins in `msg`, given that `because` stands at `at`:
/// right behind the word, or two characters further when a colon follows it.
pub open spec fn reason_start(msg: Seq<char>, at: int) -> int {
    let after = at + because().len();
    if after < msg.len() && msg[after] == ':' {
        after + 2
    } else {
        after
    }
}

/// The failure that `msg` reports, given that its first `because` stands at `at`.
pub open spec fn spawn_failure_at(msg: Seq<char>, at: int) -> JobStartErrorView {
    let start = reason_start(msg, at);
    if occurs_at(msg, start, no_candidates()) || occurs_at(msg, start, not_exists()) {
        JobStartErrorView::NotFound
    } else if occurs_at(msg, start, not_executable()) {
        JobStartErrorView::NotExecutable
    } else if occurs_at(msg, start, is_directory()) {
        JobStartErrorView::IsDir
    } else {
        JobStartErrorView::Io(msg)
    }
}

/// The failure that the text of a failed spawn reports. A text without
/// `because`, or with a reason that is not known, is a plain `Io` failure
/// that keeps the whole text.
pub open spec fn spawn_failure(msg: Seq<char>) -> JobStartErrorView {
    if absent(msg, because()) {
        JobStartErrorView::Io(msg)
    } else {
        spawn_failure_at(msg, choose|at: int| first_occurrence(msg, at, because()))
    }
}

/// The leftmost occurrence is unique, so `spawn_failure` does not depend on
/// which witness is chosen.
proof fn lemma_spawn_failure_at_first(msg: Seq<char>, at: int)
    requires
        first_occurrence(msg, at, because()),
    ensures
        spawn_failure(msg) == spawn_failure_at(msg, at),
{
    let chosen = choose|i: int| first_occurrence(msg, i, because());
    assert(first_occurrence(msg, chosen, because()));
    assert(chosen == at) by {
        if chosen < at {
            assert(!occurs_at(msg, chosen, because()));
        }
        if at < chosen {
            assert(!occurs_at(msg, at, because()));
        }
    }
    assert(!absent(msg, because()));
}

/// Maps the text of a failed spawn to the kind of failure it reports.
pub fn classify_spawn_error(message: &str) -> (out: JobStartError)
    ensures
        out@ == spawn_failure(message@),
{
    let msg = chars_of(message);
    let word = chars_of("because");
    match find(&msg, &word) {
        None => JobStartError::Io(message.to_owned()),
        Some(at) => {
            proof {
                assert(word@ == because());
                assert(occurs_at(msg@, at as int, word@));
                assert(at + word@.len() <= msg@.len() == msg.len());
                lemma_spawn_failure_at_first(msg@, at as int);
            }
            let after = at + word.len();
            let start = if after < msg.len() && msg[after] == ':' {
                if after + 1 < msg.len() {
                    after + 2
                } else {
                    // The reason would begin past the end: nothing can stand there.
                    return JobStartError::Io(message.to_owned());
                }
            } else {
                after
            };
            if matches_at(&msg, start, &chars_of("No viable candidates found in PATH"))
                || matches_at(&msg, start, &chars_of(" it does not exist")) {
                JobStartError::NotFound
            } else if matches_at(&msg, start, &chars_of(" it is not executable")) {
                JobStartError::NotExecutable
            } else if matches_at(&msg, start, &chars_of(" it is a directory")) {
                JobStartError::IsDir
            } else {
                JobStartError::Io(message.to_owned())
            }
        },
    }
}

impl JobStartErrorView {
    /// The line shown to the user for this failure.
    pub open spec fn text(self) -> Seq<char> {
        match self {
            JobStartErrorView::Io(detail) => "IO error: "@ + detail,
            JobStartErrorView::NoCommand => "No command provided"@,
            JobStartErrorView::NotFound => "Command not found"@,
            JobStartErrorView::NotExecutable => "File is not executable"@,
            JobStartErrorView::IsDir => "Command is a directory"@,
            JobStartErrorView::Parse(_) => "Cannot parse command"@,
        }
    }

    /// The kind of failure, without its payload.
    pub open spec fn kind(self) -> nat {
        match self {
            JobStartErrorView::Io(_) => 0,
            JobStartErrorView::NoCommand => 1,
            JobStartErrorView::NotFound => 2,
            JobStartErrorView::NotExecutable => 3,
            JobStartErrorView::IsDir => 4,
            JobStartErrorView::Parse(_) => 5,
        }
    }
}

impl JobStartError {
    /// The line shown to the user for this failure.
    pub fn message(&self) -> (out: String)
        ensures
            out@ == self@.text(),
    {
        match self {
            JobStartError::Io(detail) => {
                let mut out = String::from_str("IO error: ");
                out.append(detail.as_str());
                out
            },
            JobStartError::NoCommand => String::from_str("No command provided"),
            JobStartError::NotFound => String::from_str("Command not found"),
            JobStartError::NotExecutable => String::from_str("File is not executable"),
            JobStartError::IsDir => String::from_str("Command is a directory"),
            JobStartError::Parse(_) => String::from_str("Cannot parse command"),
        }
    }
}

/// Failures of different kinds never share their line of text, so the
/// interface can always tell the user which of them happened.
pub proof fn lemma_messages_tell_kinds_apart(a: JobStartErrorView, b: JobStartErrorView)
    requires
        a.kind() != b.kind(),
    ensures
        a.text() != b.text(),
{
    reveal_strlit("IO error: ");
    reveal_strlit("No command provided");
    reveal_strlit("Command not found");
    reveal_strlit("File is not executable");
    reveal_strlit("Command is a directory");
    reveal_strlit("Cannot parse command");
    let ta = a.text();
    let tb = b.text();
    // The first character separates four groups; the second and the ninth
    // separate the three texts that begin with `C`.
    assert(a is Io ==> ta[0] == 'I');
    assert(b is Io ==> tb[0] == 'I');
    assert(a is NoCommand ==> ta[0] == 'N');
    assert(b is NoCommand ==> tb[0] == 'N');
    assert(a is NotExecutable ==> ta[0] == 'F');
    assert(b is NotExecutable ==> tb[0] == 'F');
    assert(a is NotFound ==> ta[0] == 'C' && ta[1] == 'o' && ta[8] == 'n');
    assert(b is NotFound ==> tb[0] == 'C' && tb[1] == 'o' && tb[8] == 'n');
    assert(a is IsDir ==> ta[0] == 'C' && ta[1] == 'o' && ta[8] == 'i');
    assert(b is IsDir ==> tb[0] == 'C' && tb[1] == 'o' && tb[8] == 'i');
    assert(a is Parse ==> ta[0] == 'C' && ta[1] == 'a');
    assert(b is Parse ==> tb[0] == 'C' && tb[1] == 'a');
}

} // verus!
