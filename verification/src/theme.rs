//! The theme selection: a small closed enumeration, orthogonal to
//! navigation, read and written only by the `theme` command.

use vstd::prelude::*;

verus! {

use crate::outcome::CommandResult;
use crate::outcome::ResultView;
use crate::outcome::text_line;

/// The four selectable themes. `Modern` is the session default.
#[derive(Clone, Copy, Debug, PartialEq, Eq, Structural)]
pub enum Theme {
    MatrixInspired,
    EverythingBlue,
    VintageTerminal,
    Modern,
}

impl Theme {
    /// The keyword that selects this theme.
    pub open spec fn spec_keyword(self) -> Seq<char> {
        match self {
            Theme::VintageTerminal => "terminal"@,
            Theme::EverythingBlue => "blue"@,
            Theme::MatrixInspired => "matrix"@,
            Theme::Modern => "modern"@,
        }
    }

    /// Renders the keyword that selects this theme.
    pub fn keyword(&self) -> (r: String)
        ensures
            r@ == self.spec_keyword(),
    {
        match self {
            Theme::VintageTerminal => "terminal".to_owned(),
            Theme::EverythingBlue => "blue".to_owned(),
            Theme::MatrixInspired => "matrix".to_owned(),
            Theme::Modern => "modern".to_owned(),
        }
    }
}

/// The fixed (option, description) rows of the theme table.
pub open spec fn spec_theme_rows() -> Seq<(Seq<char>, Seq<char>)> {
    seq![
        ("terminal"@, "A vintage terminal feel, with a green background."@),
        ("blue"@, "Everything is a shade of blue."@),
        ("matrix"@, "Black background; green text."@),
        ("modern"@, "A modern design."@),
    ]
}

/// Builds the theme table rows.
pub fn theme_rows() -> (r: Vec<(String, String)>)
    ensures
        r.deep_view() =~= spec_theme_rows(),
{
    let mut r: Vec<(String, String)> = Vec::new();
    r.push((
        "terminal".to_owned(),
        "A vintage terminal feel, with a green background.".to_owned(),
    ));
    r.push(("blue".to_owned(), "Everything is a shade of blue.".to_owned()));
    r.push(("matrix".to_owned(), "Black background; green text.".to_owned()));
    r.push(("modern".to_owned(), "A modern design.".to_owned()));
    assert(r.deep_view() =~= spec_theme_rows());
    r
}

/// The full theme help report: the option table framed by its usage lines.
pub open spec fn spec_theme_help(before: Seq<Seq<char>>) -> ResultView {
    ResultView::Report {
        before: before + seq!["There are four options for themes:"@],
        rows: spec_theme_rows(),
        after: seq!["Usage: theme [option]"@],
    }
}

/// What the `theme` command returns and what the theme becomes, for a
/// current theme `t` and an optional argument word `arg`.
///
/// With no argument it reports the current keyword. With a known keyword
/// it switches (or reports that the theme is already set). `help` shows
/// the option table; anything else shows "not found" above that table.
pub open spec fn spec_theme_command(t: Theme, arg: Option<Seq<char>>) -> (ResultView, Theme) {
    match arg {
        None => (
            text_line(
                "Theme is set to `"@ + t.spec_keyword()
                    + "`. To learn more, type \"theme help\""@,
            ),
            t,
        ),
        Some(w) => {
            if w == "terminal"@ || w == "blue"@ || w == "matrix"@ || w == "modern"@ {
                let chosen = if w == "terminal"@ {
                    Theme::VintageTerminal
                } else if w == "blue"@ {
                    Theme::EverythingBlue
                } else if w == "matrix"@ {
                    Theme::MatrixInspired
                } else {
                    Theme::Modern
                };
                if chosen == t {
                    (text_line("Theme is already set to `"@ + w + "`."@), t)
                } else {
                    (text_line("Theme set to `"@ + w + "`."@), chosen)
                }
            } else if w == "help"@ {
                (spec_theme_help(Seq::empty()), t)
            } else {
                (spec_theme_help(seq!["Theme `"@ + w + "` not found."@]), t)
            }
        },
    }
}

/// Builds the theme help report, with the lines `before` above the table.
fn theme_help_report(before: Vec<String>) -> (r: CommandResult)
    ensures
        r@ == spec_theme_help(before.deep_view()),
{
    let ghost bv = before.deep_view();
    let mut lines = before;
    lines.push("There are four options for themes:".to_owned());
    assert(lines.deep_view() =~= bv + seq!["There are four options for themes:"@]);
    let rows = theme_rows();
    let mut after: Vec<String> = Vec::new();
    after.push("Usage: theme [option]".to_owned());
    assert(after.deep_view() =~= seq!["Usage: theme [option]"@]);
    CommandResult::Report { before: lines, rows, after }
}

/// Handles the `theme` command: `arg` is its single optional word.
/// Returns the result and updates `t` as `spec_theme_command` says.
pub fn theme_command(t: &mut Theme, arg: Option<&String>) -> (r: CommandResult)
    ensures
        ({
            let (res, nt) = spec_theme_command(
                *old(t),
                match arg {
                    Some(w) => Some(w@),
                    None => None,
                },
            );
            r@ == res && *final(t) == nt
        }),
{
    match arg {
        None => {
            let line = "Theme is set to `".to_owned().concat(t.keyword().as_str()).concat(
                "`. To learn more, type \"theme help\"",
            );
            crate::outcome::one_line(line)
        },
        Some(w) => {
            let chosen: Option<Theme> = if *w == "terminal".to_owned() {
                Some(Theme::VintageTerminal)
            } else if *w == "blue".to_owned() {
                Some(Theme::EverythingBlue)
            } else if *w == "matrix".to_owned() {
                Some(Theme::MatrixInspired)
            } else if *w == "modern".to_owned() {
                Some(Theme::Modern)
            } else {
                None
            };
            match chosen {
                Some(nt) => {
                    if nt == *t {
                        let line = "Theme is already set to `".to_owned().concat(
                            w.as_str(),
                        ).concat("`.");
                        crate::outcome::one_line(line)
                    } else {
                        *t = nt;
                        let line = "Theme set to `".to_owned().concat(w.as_str()).concat(
                            "`.",
                        );
                        crate::outcome::one_line(line)
                    }
                },
                None => {
                    if *w == "help".to_owned() {
                        let before: Vec<String> = Vec::new();
                        assert(before.deep_view() =~= Seq::<Seq<char>>::empty());
                        theme_help_report(before)
                    } else {
                        let mut before: Vec<String> = Vec::new();
                        before.push(
                            "Theme `".to_owned().concat(w.as_str()).concat("` not found."),
                        );
                        assert(before.deep_view() =~= seq!["Theme `"@ + w@ + "` not found."@]);
                        theme_help_report(before)
                    }
                },
            }
        },
    }
}

} // verus!
