//! The command dispatcher and the individual command handlers.
//!
//! The first word of a tokenized line selects the handler by exact,
//! case-sensitive match; every handler validates its own argument count.
//! Commands that take no argument (`ls`, `pwd`, `help`, `exit`) reject any
//! extra word; commands that take one (`cd`, `cat`, `dog`, `theme`) reject
//! more than one. Each handler's exact behaviour is a spec function here.

use vstd::prelude::*;

verus! {

use crate::catalog::Catalog;
use crate::navigator::Navigator;
use crate::navigator::concat_all;
use crate::outcome::CommandResult;
use crate::outcome::ErrorKind;
use crate::outcome::ResultView;
use crate::outcome::one_line;
use crate::outcome::text_line;
use crate::text::before_slash;
use crate::text::count_slashes;
use crate::text::slash_count;
use crate::text::take_before_slash;
use crate::theme::Theme;
use crate::theme::spec_theme_command;
use crate::theme::theme_command;

/// A listing row for one entry name: the name, tagged as a directory when
/// it carries a trailing `/`.
pub open spec fn tag_entry(name: Seq<char>) -> (Seq<char>, bool) {
    (name, name.len() > 0 && name.last() == '/')
}

/// What `ls` lists in the directory at `segs`: `..` (omitted at the root),
/// then `.`, then every child of the current directory in stored order,
/// each tagged as directory or file.
pub open spec fn spec_ls(cat: Catalog, segs: Seq<Seq<char>>) -> ResultView {
    let parent: Seq<(Seq<char>, bool)> = if segs.len() > 1 {
        seq![(".."@, true)]
    } else {
        Seq::empty()
    };
    ResultView::Listing(
        parent + seq![("."@, true)] + cat.children_of(concat_all(segs)).map_values(
            |c: Seq<char>| tag_entry(c),
        ),
    )
}

/// What `pwd` returns at `segs`.
pub open spec fn spec_pwd(segs: Seq<Seq<char>>) -> ResultView {
    text_line("The current working directory is: "@ + concat_all(segs))
}

/// What `cat` (and its alias `dog`) returns: the exact stored content of
/// the file at the current path followed by `arg`, or `FileNotFound`.
pub open spec fn spec_cat(cat: Catalog, segs: Seq<Seq<char>>, arg: Seq<char>) -> ResultView {
    let path = concat_all(segs) + arg;
    if cat.is_file(path) {
        ResultView::Text(seq![cat.content_of(path)])
    } else {
        ResultView::Failure(ErrorKind::FileNotFound)
    }
}

/// What `cd` returns and what the segment stack becomes, for an optional
/// argument word.
///
/// No argument resets to the root (a no-op at the root). An argument with
/// two or more `/` is rejected as unsupported: `cd` is a single relative
/// hop. `.` stays put, `..` pops one segment, and any other name is
/// resolved against the current directory's children, entering on a match
/// with the directory form `name/`, and failing with `FileNotDirectory`
/// or `DirectoryNotFound` otherwise.
pub open spec fn spec_cd(cat: Catalog, segs: Seq<Seq<char>>, arg: Option<Seq<char>>) -> (
    ResultView,
    Seq<Seq<char>>,
) {
    match arg {
        None => {
            if segs.len() == 1 {
                (text_line("Already at root directory. Cannot go higher."@), segs)
            } else {
                (text_line("Changed directory to root."@), seq!["/"@])
            }
        },
        Some(w) => {
            if slash_count(w) >= 2 {
                (
                    text_line(
                        "Only cd to parent or child directories are supported at the moment."@,
                    ),
                    segs,
                )
            } else if w == "."@ || w == "./"@ {
                (text_line("No change in directory"@), segs)
            } else if w == ".."@ || w == "../"@ {
                if segs.len() == 1 {
                    (text_line("Already at root directory. Cannot go higher."@), segs)
                } else {
                    (
                        text_line("Path changed to "@ + concat_all(segs.drop_last())),
                        segs.drop_last(),
                    )
                }
            } else {
                let name = before_slash(w);
                let cs = cat.children_of(concat_all(segs));
                if cs.contains(name + "/"@) {
                    (
                        text_line(
                            "Path changed to "@ + concat_all(segs.push(name + "/"@)),
                        ),
                        segs.push(name + "/"@),
                    )
                } else if cs.contains(name) {
                    (ResultView::Failure(ErrorKind::FileNotDirectory), segs)
                } else {
                    (ResultView::Failure(ErrorKind::DirectoryNotFound), segs)
                }
            }
        },
    }
}

/// The fixed (command, description) rows of the help table.
pub open spec fn spec_help_rows() -> Seq<(Seq<char>, Seq<char>)> {
    seq![
        ("ls"@, "Lists files and directories inside current directory."@),
        (
            "cd"@,
            "Changes directory to the go up one level (parent), or down one level (child)."@,
        ),
        ("pwd"@, "Lists the full path of current working directory."@),
        ("cat"@, "Used to print the contents of a file."@),
        ("dog"@, "Used to print the contents of a file."@),
        ("help"@, "Displays this list of commands available."@),
        ("clear"@, "Clears the terminal."@),
        ("theme"@, "Change the theme of the terminal."@),
    ]
}

/// What `help` returns: the fixed command table.
pub open spec fn spec_help() -> ResultView {
    ResultView::Report { before: Seq::empty(), rows: spec_help_rows(), after: Seq::empty() }
}

/// What `exit` returns: a fixed refusal. The session never terminates.
pub open spec fn spec_exit() -> ResultView {
    ResultView::Text(
        seq![
            "There's no exiting this terminal."@,
            "The only way out is turning off the internet."@,
            "Or, you could close this tab."@,
        ],
    )
}

/// What dispatching `toks` does to a session in state (`segs`, `th`):
/// the result, the new segment stack, and the new theme.
///
/// An empty line or an unknown first word is `CommandNotFound`; otherwise
/// the first word selects the handler and the argument-count rule above
/// applies, with `ExtraParametersPassed` on violation.
pub open spec fn spec_dispatch(
    cat: Catalog,
    toks: Seq<Seq<char>>,
    segs: Seq<Seq<char>>,
    th: Theme,
) -> (ResultView, Seq<Seq<char>>, Theme) {
    if toks.len() == 0 {
        (ResultView::Failure(ErrorKind::CommandNotFound), segs, th)
    } else {
        let c = toks[0];
        if c == "ls"@ {
            if toks.len() > 1 {
                (ResultView::Failure(ErrorKind::ExtraParametersPassed), segs, th)
            } else {
                (spec_ls(cat, segs), segs, th)
            }
        } else if c == "cd"@ {
            if toks.len() > 2 {
                (ResultView::Failure(ErrorKind::ExtraParametersPassed), segs, th)
            } else {
                let arg = if toks.len() == 2 {
                    Some(toks[1])
                } else {
                    None
                };
                let (res, segs2) = spec_cd(cat, segs, arg);
                (res, segs2, th)
            }
        } else if c == "pwd"@ {
            if toks.len() > 1 {
                (ResultView::Failure(ErrorKind::ExtraParametersPassed), segs, th)
            } else {
                (spec_pwd(segs), segs, th)
            }
        } else if c == "cat"@ || c == "dog"@ {
            if toks.len() > 2 {
                (ResultView::Failure(ErrorKind::ExtraParametersPassed), segs, th)
            } else {
                let arg = if toks.len() == 2 {
                    toks[1]
                } else {
                    ""@
                };
                (spec_cat(cat, segs, arg), segs, th)
            }
        } else if c == "help"@ {
            if toks.len() > 1 {
                (ResultView::Failure(ErrorKind::ExtraParametersPassed), segs, th)
            } else {
                (spec_help(), segs, th)
            }
        } else if c == "exit"@ {
            if toks.len() > 1 {
                (ResultView::Failure(ErrorKind::ExtraParametersPassed), segs, th)
            } else {
                (spec_exit(), segs, th)
            }
        } else if c == "theme"@ {
            if toks.len() > 2 {
                (ResultView::Failure(ErrorKind::ExtraParametersPassed), segs, th)
            } else {
                let arg = if toks.len() == 2 {
                    Some(toks[1])
                } else {
                    None
                };
                let (res, th2) = spec_theme_command(th, arg);
                (res, segs, th2)
            }
        } else {
            (ResultView::Failure(ErrorKind::CommandNotFound), segs, th)
        }
    }
}

/// Handles `ls`: lists the current directory.
pub fn ls_command(cat: &Catalog, nav: &Navigator) -> (r: CommandResult)
    requires
        nav.wf(*cat),
        cat.wf(),
    ensures
        r@ == spec_ls(*cat, nav.segs()),
{
    proof {
        assert(nav.segs().take(nav.segs().len() as int) =~= nav.segs());
    }
    let path = nav.current_absolute_path();
    let ghost cs = cat.children_of(nav.abs());
    let ghost prefix: Seq<(Seq<char>, bool)> = if nav.segs().len() > 1 {
        seq![(".."@, true), ("."@, true)]
    } else {
        seq![("."@, true)]
    };
    match cat.list_children(path.as_str()) {
        Err(_) => {
            // Unreachable: the invariant makes the current path a key.
            assert(false);
            CommandResult::Failure(ErrorKind::PathNotFound)
        },
        Ok(children) => {
            let mut rows: Vec<(String, bool)> = Vec::new();
            if depth_of(nav) > 1 {
                rows.push(("..".to_owned(), true));
            }
            rows.push((".".to_owned(), true));
            assert(rows.deep_view() =~= prefix);
            let n = children.len();
            let mut i: usize = 0;
            while i < n
                invariant
                    0 <= i <= n,
                    n == cs.len(),
                    children.deep_view() == cs,
                    rows.deep_view() =~= prefix + cs.take(i as int).map_values(
                        |c: Seq<char>| tag_entry(c),
                    ),
                decreases n - i,
            {
                assert(children[i as int]@ == cs[i as int]);
                let name = children[i].clone();
                let ghost nv = name@;
                let l = name.unicode_len();
                let is_dir_entry = if l == 0 {
                    false
                } else {
                    name.as_str().get_char(l - 1) == '/'
                };
                assert((nv, is_dir_entry) == tag_entry(cs[i as int]));
                let ghost rows_dv = rows.deep_view();
                rows.push((name, is_dir_entry));
                assert(rows.deep_view() =~= rows_dv.push((nv, is_dir_entry)));
                assert(cs.take(i as int + 1) =~= cs.take(i as int).push(cs[i as int]));
                assert(cs.take(i as int + 1).map_values(|c: Seq<char>| tag_entry(c)) =~= cs
                    .take(i as int).map_values(|c: Seq<char>| tag_entry(c)).push(
                    tag_entry(cs[i as int]),
                ));
                assert(rows.deep_view() =~= prefix + cs.take(i as int + 1).map_values(
                    |c: Seq<char>| tag_entry(c),
                ));
                i = i + 1;
            }
            assert(cs.take(n as int) =~= cs);
            let r = CommandResult::Listing(rows);
            assert(r@ =~~= spec_ls(*cat, nav.segs()));
            r
        },
    }
}

/// Handles `pwd`: reports the current absolute path.
pub fn pwd_command(nav: &Navigator) -> (r: CommandResult)
    ensures
        r@ == spec_pwd(nav.segs()),
{
    let line = "The current working directory is: ".to_owned().concat(
        nav.current_absolute_path().as_str(),
    );
    one_line(line)
}

/// Handles `cat` and `dog`: prints the stored content of the file named
/// by the current path followed by `arg`.
pub fn cat_command(cat: &Catalog, nav: &Navigator, arg: &str) -> (r: CommandResult)
    ensures
        r@ == spec_cat(*cat, nav.segs(), arg@),
{
    let path = nav.current_absolute_path().concat(arg);
    match cat.read_file(path.as_str()) {
        Ok(content) => {
            let line = content.clone();
            let r = one_line(line);
            assert(r@ =~~= spec_cat(*cat, nav.segs(), arg@));
            r
        },
        Err(e) => CommandResult::Failure(e),
    }
}

/// Handles `cd` with an optional argument word.
pub fn cd_command(cat: &Catalog, nav: &mut Navigator, arg: Option<&String>) -> (r: CommandResult)
    requires
        old(nav).wf(*cat),
        cat.wf(),
    ensures
        final(nav).wf(*cat),
        ({
            let (res, segs2) = spec_cd(
                *cat,
                old(nav).segs(),
                match arg {
                    Some(w) => Some(w@),
                    None => None,
                },
            );
            r@ == res && final(nav).segs() == segs2
        }),
{
    match arg {
        None => {
            if depth_of(nav) == 1 {
                one_line("Already at root directory. Cannot go higher.".to_owned())
            } else {
                nav.reset_to_root(cat);
                one_line("Changed directory to root.".to_owned())
            }
        },
        Some(w) => {
            if count_slashes(w.as_str()) >= 2 {
                one_line(
                    "Only cd to parent or child directories are supported at the moment.".to_owned(),
                )
            } else if *w == ".".to_owned() || *w == "./".to_owned() {
                one_line("No change in directory".to_owned())
            } else if *w == "..".to_owned() || *w == "../".to_owned() {
                let popped = nav.leave(cat);
                if popped {
                    let line = "Path changed to ".to_owned().concat(
                        nav.current_absolute_path().as_str(),
                    );
                    one_line(line)
                } else {
                    one_line("Already at root directory. Cannot go higher.".to_owned())
                }
            } else {
                let name = take_before_slash(w.as_str());
                match nav.enter(cat, name.as_str()) {
                    Ok(()) => {
                        let line = "Path changed to ".to_owned().concat(
                            nav.current_absolute_path().as_str(),
                        );
                        one_line(line)
                    },
                    Err(e) => CommandResult::Failure(e),
                }
            }
        },
    }
}

/// Handles `help`: the fixed command table.
pub fn help_command() -> (r: CommandResult)
    ensures
        r@ == spec_help(),
{
    let mut rows: Vec<(String, String)> = Vec::new();
    rows.push((
        "ls".to_owned(),
        "Lists files and directories inside current directory.".to_owned(),
    ));
    rows.push((
        "cd".to_owned(),
        "Changes directory to the go up one level (parent), or down one level (child).".to_owned(),
    ));
    rows.push((
        "pwd".to_owned(),
        "Lists the full path of current working directory.".to_owned(),
    ));
    rows.push(("cat".to_owned(), "Used to print the contents of a file.".to_owned()));
    rows.push(("dog".to_owned(), "Used to print the contents of a file.".to_owned()));
    rows.push((
        "help".to_owned(),
        "Displays this list of commands available.".to_owned(),
    ));
    rows.push(("clear".to_owned(), "Clears the terminal.".to_owned()));
    rows.push(("theme".to_owned(), "Change the theme of the terminal.".to_owned()));
    assert(rows.deep_view() =~= spec_help_rows());
    let before: Vec<String> = Vec::new();
    let after: Vec<String> = Vec::new();
    assert(before.deep_view() =~= Seq::<Seq<char>>::empty());
    assert(after.deep_view() =~= Seq::<Seq<char>>::empty());
    CommandResult::Report { before, rows, after }
}

/// Handles `exit`: there is no exiting this terminal.
pub fn exit_command() -> (r: CommandResult)
    ensures
        r@ == spec_exit(),
{
    let mut lines: Vec<String> = Vec::new();
    lines.push("There's no exiting this terminal.".to_owned());
    lines.push("The only way out is turning off the internet.".to_owned());
    lines.push("Or, you could close this tab.".to_owned());
    assert(lines.deep_view() =~= seq![
        "There's no exiting this terminal."@,
        "The only way out is turning off the internet."@,
        "Or, you could close this tab."@,
    ]);
    CommandResult::Text(lines)
}

/// Dispatches tokenized words against the session state, per
/// `spec_dispatch`. The navigator invariant is preserved.
pub fn dispatch(cat: &Catalog, nav: &mut Navigator, th: &mut Theme, tokens: &Vec<String>) -> (r:
    CommandResult)
    requires
        old(nav).wf(*cat),
        cat.wf(),
    ensures
        final(nav).wf(*cat),
        ({
            let (res, segs2, th2) = spec_dispatch(
                *cat,
                tokens.deep_view(),
                old(nav).segs(),
                *old(th),
            );
            r@ == res && final(nav).segs() == segs2 && *final(th) == th2
        }),
{
    let n = tokens.len();
    if n == 0 {
        return CommandResult::Failure(ErrorKind::CommandNotFound);
    }
    let first = &tokens[0];
    assert(first@ == tokens.deep_view()[0]);
    if *first == "ls".to_owned() {
        if n > 1 {
            CommandResult::Failure(ErrorKind::ExtraParametersPassed)
        } else {
            ls_command(cat, nav)
        }
    } else if *first == "cd".to_owned() {
        if n > 2 {
            CommandResult::Failure(ErrorKind::ExtraParametersPassed)
        } else if n == 2 {
            assert(tokens[1]@ == tokens.deep_view()[1]);
            cd_command(cat, nav, Some(&tokens[1]))
        } else {
            cd_command(cat, nav, None)
        }
    } else if *first == "pwd".to_owned() {
        if n > 1 {
            CommandResult::Failure(ErrorKind::ExtraParametersPassed)
        } else {
            pwd_command(nav)
        }
    } else if *first == "cat".to_owned() || *first == "dog".to_owned() {
        if n > 2 {
            CommandResult::Failure(ErrorKind::ExtraParametersPassed)
        } else if n == 2 {
            assert(tokens[1]@ == tokens.deep_view()[1]);
            cat_command(cat, nav, tokens[1].as_str())
        } else {
            cat_command(cat, nav, "")
        }
    } else if *first == "help".to_owned() {
        if n > 1 {
            CommandResult::Failure(ErrorKind::ExtraParametersPassed)
        } else {
            help_command()
        }
    } else if *first == "exit".to_owned() {
        if n > 1 {
            CommandResult::Failure(ErrorKind::ExtraParametersPassed)
        } else {
            exit_command()
        }
    } else if *first == "theme".to_owned() {
        if n > 2 {
            CommandResult::Failure(ErrorKind::ExtraParametersPassed)
        } else if n == 2 {
            assert(tokens[1]@ == tokens.deep_view()[1]);
            theme_command(th, Some(&tokens[1]))
        } else {
            theme_command(th, None)
        }
    } else {
        CommandResult::Failure(ErrorKind::CommandNotFound)
    }
}

/// The current depth of the segment stack.
fn depth_of(nav: &Navigator) -> (d: usize)
    ensures
        d == nav.segs().len(),
{
    nav.segments.len()
}

} // verus!
