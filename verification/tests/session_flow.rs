use webterm::outcome::CommandResult;
use webterm::outcome::ErrorKind;
use webterm::session::Session;
use webterm::site::default_catalog;
use webterm::theme::Theme;

fn line(s: &str) -> CommandResult {
    CommandResult::Text(vec![s.to_string()])
}

#[test]
fn cd_parent_at_root_leaves_path_unchanged() {
    let mut s = Session::new(default_catalog());
    s.submit_line("cd ..");
    s.submit_line("pwd");
    assert_eq!(
        s.history[0].resp,
        line("Already at root directory. Cannot go higher.")
    );
    assert_eq!(s.history[1].resp, line("The current working directory is: /"));
}

#[test]
fn cd_parent_pops_exactly_one_segment() {
    let mut s = Session::new(default_catalog());
    s.submit_line("cd about");
    s.submit_line("cd secrets");
    s.submit_line("cd ..");
    s.submit_line("pwd");
    assert_eq!(s.history[2].resp, line("Path changed to /about/"));
    assert_eq!(
        s.history[3].resp,
        line("The current working directory is: /about/")
    );
}

#[test]
fn cd_child_appends_that_segment() {
    let mut s = Session::new(default_catalog());
    s.submit_line("cd about");
    assert_eq!(s.history[0].resp, line("Path changed to /about/"));
}

#[test]
fn cd_to_file_and_to_unknown_fail_without_moving() {
    let mut s = Session::new(default_catalog());
    s.submit_line("cd about");
    s.submit_line("cd summary");
    s.submit_line("cd attic");
    s.submit_line("pwd");
    assert_eq!(
        s.history[1].resp,
        CommandResult::Failure(ErrorKind::FileNotDirectory)
    );
    assert_eq!(
        s.history[2].resp,
        CommandResult::Failure(ErrorKind::DirectoryNotFound)
    );
    assert_eq!(
        s.history[3].resp,
        line("The current working directory is: /about/")
    );
}

#[test]
fn cd_round_trip_is_idempotent() {
    let mut s = Session::new(default_catalog());
    for _ in 0..2 {
        s.submit_line("cd about");
        s.submit_line("pwd");
        s.submit_line("cd ..");
        s.submit_line("pwd");
    }
    for round in [0usize, 4] {
        assert_eq!(
            s.history[round + 1].resp,
            line("The current working directory is: /about/")
        );
        assert_eq!(s.history[round + 2].resp, line("Path changed to /"));
        assert_eq!(
            s.history[round + 3].resp,
            line("The current working directory is: /")
        );
    }
}

#[test]
fn cd_dot_is_a_no_op() {
    let mut s = Session::new(default_catalog());
    s.submit_line("cd about");
    s.submit_line("cd .");
    s.submit_line("cd ./");
    s.submit_line("pwd");
    assert_eq!(s.history[1].resp, line("No change in directory"));
    assert_eq!(s.history[2].resp, line("No change in directory"));
    assert_eq!(
        s.history[3].resp,
        line("The current working directory is: /about/")
    );
}

#[test]
fn cd_trailing_slash_enters_the_child() {
    let mut s = Session::new(default_catalog());
    s.submit_line("cd about/");
    assert_eq!(s.history[0].resp, line("Path changed to /about/"));
}

#[test]
fn cd_rejects_multi_level_paths() {
    let mut s = Session::new(default_catalog());
    s.submit_line("cd about/secrets/shhh");
    s.submit_line("pwd");
    assert_eq!(
        s.history[0].resp,
        line("Only cd to parent or child directories are supported at the moment.")
    );
    assert_eq!(s.history[1].resp, line("The current working directory is: /"));
}

#[test]
fn cd_without_argument_resets_to_root() {
    let mut s = Session::new(default_catalog());
    s.submit_line("cd about");
    s.submit_line("cd secrets");
    s.submit_line("cd");
    s.submit_line("pwd");
    assert_eq!(s.history[2].resp, line("Changed directory to root."));
    assert_eq!(s.history[3].resp, line("The current working directory is: /"));
}

#[test]
fn cd_without_argument_at_root_reports_it() {
    let mut s = Session::new(default_catalog());
    s.submit_line("cd");
    assert_eq!(
        s.history[0].resp,
        line("Already at root directory. Cannot go higher.")
    );
}

#[test]
fn clear_wipes_history_and_nothing_else() {
    let mut s = Session::new(default_catalog());
    s.submit_line("cd about");
    s.submit_line("theme matrix");
    s.submit_line("  clear \t");
    assert!(s.history.is_empty());
    assert_eq!(s.theme, Theme::MatrixInspired);
    s.submit_line("pwd");
    assert_eq!(s.history.len(), 1);
    assert_eq!(
        s.history[0].resp,
        line("The current working directory is: /about/")
    );
}

#[test]
fn clear_with_other_words_is_not_intercepted() {
    let mut s = Session::new(default_catalog());
    s.submit_line("pwd");
    s.submit_line("clear now");
    assert_eq!(s.history.len(), 2);
    assert_eq!(
        s.history[1].resp,
        CommandResult::Failure(ErrorKind::CommandNotFound)
    );
}

#[test]
fn empty_line_is_command_not_found() {
    let mut s = Session::new(default_catalog());
    s.submit_line("   ");
    assert_eq!(
        s.history[0].resp,
        CommandResult::Failure(ErrorKind::CommandNotFound)
    );
}

#[test]
fn history_keeps_requests_in_arrival_order() {
    let mut s = Session::new(default_catalog());
    s.submit_line("pwd");
    s.submit_line("ls");
    s.submit_line("nonsense");
    assert_eq!(s.history.len(), 3);
    assert_eq!(s.history[0].req, "pwd");
    assert_eq!(s.history[1].req, "ls");
    assert_eq!(s.history[2].req, "nonsense");
}

#[test]
fn theme_defaults_to_modern() {
    let mut s = Session::new(default_catalog());
    assert_eq!(s.theme, Theme::Modern);
    s.submit_line("theme");
    assert_eq!(
        s.history[0].resp,
        line("Theme is set to `modern`. To learn more, type \"theme help\"")
    );
}

#[test]
fn theme_switch_reports_and_is_idempotent() {
    let mut s = Session::new(default_catalog());
    s.submit_line("theme matrix");
    s.submit_line("theme");
    s.submit_line("theme matrix");
    assert_eq!(s.history[0].resp, line("Theme set to `matrix`."));
    assert_eq!(
        s.history[1].resp,
        line("Theme is set to `matrix`. To learn more, type \"theme help\"")
    );
    assert_eq!(s.history[2].resp, line("Theme is already set to `matrix`."));
    assert_eq!(s.theme, Theme::MatrixInspired);
}

#[test]
fn theme_help_shows_the_option_table() {
    let mut s = Session::new(default_catalog());
    s.submit_line("theme help");
    match &s.history[0].resp {
        CommandResult::Report { before, rows, after } => {
            assert_eq!(before, &vec!["There are four options for themes:".to_string()]);
            assert_eq!(rows.len(), 4);
            assert_eq!(rows[2].0, "matrix");
            assert_eq!(after, &vec!["Usage: theme [option]".to_string()]);
        }
        other => panic!("expected a report, got {:?}", other),
    }
}

#[test]
fn unknown_theme_reports_not_found_with_the_table() {
    let mut s = Session::new(default_catalog());
    s.submit_line("theme neon");
    match &s.history[0].resp {
        CommandResult::Report { before, rows, after } => {
            assert_eq!(
                before,
                &vec![
                    "Theme `neon` not found.".to_string(),
                    "There are four options for themes:".to_string(),
                ]
            );
            assert_eq!(rows.len(), 4);
            assert_eq!(after, &vec!["Usage: theme [option]".to_string()]);
        }
        other => panic!("expected a report, got {:?}", other),
    }
    assert_eq!(s.theme, Theme::Modern);
}

#[test]
fn every_theme_keyword_switches() {
    let mut s = Session::new(default_catalog());
    s.submit_line("theme terminal");
    assert_eq!(s.theme, Theme::VintageTerminal);
    s.submit_line("theme blue");
    assert_eq!(s.theme, Theme::EverythingBlue);
    s.submit_line("theme modern");
    assert_eq!(s.theme, Theme::Modern);
}
