//! The result and error types every command handler returns.
//!
//! A handler produces a `CommandResult`: plain text lines, a tagged listing,
//! a table report, or a failure from the closed error taxonomy. The
//! presentation layer projects these to visuals; the interpreter never
//! renders anything itself.

use vstd::prelude::*;

verus! {

/// The closed error taxonomy. Every failure a handler can produce is one
/// of these; none aborts the session.
#[derive(Clone, Copy, Debug, PartialEq, Eq, Structural)]
pub enum ErrorKind {
    CommandNotFound,
    ExtraParametersPassed,
    PathNotFound,
    DirectoryNotFound,
    FileNotFound,
    FileNotDirectory,
}

impl ErrorKind {
    /// The fixed user-visible message for this error kind.
    pub open spec fn spec_message(self) -> Seq<char> {
        match self {
            ErrorKind::CommandNotFound => "Command not found. Use 'help' command to see list of commands."@,
            ErrorKind::ExtraParametersPassed => "Extra parameters found in the command."@,
            ErrorKind::PathNotFound => "Path not found."@,
            ErrorKind::DirectoryNotFound => "Directory not found. Please check spelling and case."@,
            ErrorKind::FileNotFound => "File not found in directory. Please check spelling and case."@,
            ErrorKind::FileNotDirectory => "This is a file, not a directory. Directories end with a '/'"@,
        }
    }

    /// Renders the fixed message for this error kind.
    pub fn message(&self) -> (r: String)
        ensures
            r@ == self.spec_message(),
    {
        match self {
            ErrorKind::CommandNotFound => "Command not found. Use 'help' command to see list of commands.".to_owned(),
            ErrorKind::ExtraParametersPassed => "Extra parameters found in the command.".to_owned(),
            ErrorKind::PathNotFound => "Path not found.".to_owned(),
            ErrorKind::DirectoryNotFound => "Directory not found. Please check spelling and case.".to_owned(),
            ErrorKind::FileNotFound => "File not found in directory. Please check spelling and case.".to_owned(),
            ErrorKind::FileNotDirectory => "This is a file, not a directory. Directories end with a '/'".to_owned(),
        }
    }
}

/// A structured command result, owned by the caller.
///
/// `Listing` rows pair an entry name with a flag that is true when the
/// entry is a directory. `Report` is a table of (label, description) rows
/// framed by optional text lines before and after it.
#[derive(Debug, PartialEq, Eq)]
pub enum CommandResult {
    Text(Vec<String>),
    Listing(Vec<(String, bool)>),
    Report { before: Vec<String>, rows: Vec<(String, String)>, after: Vec<String> },
    Failure(ErrorKind),
}

/// The mathematical shape of a `CommandResult`, over sequence views.
#[verifier::ext_equal]
pub enum ResultView {
    Text(Seq<Seq<char>>),
    Listing(Seq<(Seq<char>, bool)>),
    Report { before: Seq<Seq<char>>, rows: Seq<(Seq<char>, Seq<char>)>, after: Seq<Seq<char>> },
    Failure(ErrorKind),
}

impl View for CommandResult {
    type V = ResultView;

    open spec fn view(&self) -> ResultView {
        match self {
            CommandResult::Text(lines) => ResultView::Text(lines.deep_view()),
            CommandResult::Listing(rows) => ResultView::Listing(rows.deep_view()),
            CommandResult::Report { before, rows, after } => ResultView::Report {
                before: before.deep_view(),
                rows: rows.deep_view(),
                after: after.deep_view(),
            },
            CommandResult::Failure(e) => ResultView::Failure(*e),
        }
    }
}

/// A `ResultView` holding the single text line `line`.
pub open spec fn text_line(line: Seq<char>) -> ResultView {
    ResultView::Text(seq![line])
}

/// Builds a single-line text result.
pub fn one_line(line: String) -> (r: CommandResult)
    ensures
        r@ == text_line(line@),
{
    let ghost lv = line@;
    let mut lines: Vec<String> = Vec::new();
    lines.push(line);
    assert(lines.deep_view() =~= seq![lv]);
    CommandResult::Text(lines)
}

} // verus!
