use webterm::outcome::CommandResult;
use webterm::outcome::ErrorKind;
use webterm::session::Session;
use webterm::site::default_catalog;

fn run(lines: &[&str]) -> Session {
    let mut s = Session::new(default_catalog());
    for line in lines {
        s.submit_line(line);
    }
    s
}

fn text(lines: &[&str]) -> CommandResult {
    CommandResult::Text(lines.iter().map(|l| l.to_string()).collect())
}

#[test]
fn ls_at_root_lists_exactly_dot_and_children() {
    let s = run(&["ls"]);
    assert_eq!(
        s.history[0].resp,
        CommandResult::Listing(vec![
            (".".to_string(), true),
            ("about/".to_string(), true),
            ("projects/".to_string(), true),
            ("work/".to_string(), true),
            ("random/".to_string(), true),
        ])
    );
}

#[test]
fn ls_outside_root_lists_parent_first() {
    let s = run(&["cd about", "ls"]);
    assert_eq!(
        s.history[1].resp,
        CommandResult::Listing(vec![
            ("..".to_string(), true),
            (".".to_string(), true),
            ("summary".to_string(), false),
            ("secrets/".to_string(), true),
        ])
    );
}

#[test]
fn ls_in_empty_directory() {
    let s = run(&["cd work", "ls"]);
    assert_eq!(
        s.history[1].resp,
        CommandResult::Listing(vec![("..".to_string(), true), (".".to_string(), true)])
    );
}

#[test]
fn cat_returns_exact_stored_content() {
    let s = run(&["cd about", "cat summary"]);
    assert_eq!(
        s.history[1].resp,
        text(&["This project is built in Rust, using Dioxus, and some CSS."])
    );
}

#[test]
fn cat_missing_file_is_file_not_found() {
    let s = run(&["cat nothing_here"]);
    assert_eq!(
        s.history[0].resp,
        CommandResult::Failure(ErrorKind::FileNotFound)
    );
}

#[test]
fn cat_without_argument_is_file_not_found() {
    let s = run(&["cat"]);
    assert_eq!(
        s.history[0].resp,
        CommandResult::Failure(ErrorKind::FileNotFound)
    );
}

#[test]
fn dog_behaves_exactly_like_cat() {
    let s = run(&[
        "cd random",
        "cat rules_of_internet",
        "dog rules_of_internet",
        "dog missing",
        "cat missing",
    ]);
    assert_eq!(s.history[1].resp, s.history[2].resp);
    assert_eq!(s.history[3].resp, s.history[4].resp);
    assert_eq!(
        s.history[1].resp,
        text(&["It's silly, and mostly trolls. Of course, it's on a chan! Look up rule 16."])
    );
}

#[test]
fn cat_accepts_a_nested_path_argument() {
    let s = run(&["cd about", "cat secrets/shhh"]);
    assert_eq!(
        s.history[1].resp,
        text(&["There's an `exit` command. Don't try that."])
    );
}

#[test]
fn help_lists_the_command_table() {
    let s = run(&["help"]);
    match &s.history[0].resp {
        CommandResult::Report { before, rows, after } => {
            assert!(before.is_empty());
            assert!(after.is_empty());
            assert_eq!(rows.len(), 8);
            assert_eq!(rows[0].0, "ls");
            assert_eq!(rows[3].0, "cat");
            assert_eq!(rows[4].0, "dog");
            assert_eq!(rows[6], ("clear".to_string(), "Clears the terminal.".to_string()));
        }
        other => panic!("expected a report, got {:?}", other),
    }
}

#[test]
fn exit_refuses_to_exit() {
    let s = run(&["exit"]);
    assert_eq!(
        s.history[0].resp,
        text(&[
            "There's no exiting this terminal.",
            "The only way out is turning off the internet.",
            "Or, you could close this tab.",
        ])
    );
}

#[test]
fn unknown_command_is_command_not_found() {
    let s = run(&["make me a sandwich"]);
    assert_eq!(
        s.history[0].resp,
        CommandResult::Failure(ErrorKind::CommandNotFound)
    );
}

#[test]
fn commands_are_case_sensitive() {
    let s = run(&["LS"]);
    assert_eq!(
        s.history[0].resp,
        CommandResult::Failure(ErrorKind::CommandNotFound)
    );
}

#[test]
fn no_argument_commands_reject_extra_words() {
    let s = run(&["ls -l", "pwd here", "help me", "exit now"]);
    for i in 0..4 {
        assert_eq!(
            s.history[i].resp,
            CommandResult::Failure(ErrorKind::ExtraParametersPassed),
            "entry {} should reject extra parameters",
            i
        );
    }
}

#[test]
fn one_argument_commands_reject_a_second_word() {
    let s = run(&["cd a b", "cat a b", "dog a b", "theme a b"]);
    for i in 0..4 {
        assert_eq!(
            s.history[i].resp,
            CommandResult::Failure(ErrorKind::ExtraParametersPassed),
            "entry {} should reject extra parameters",
            i
        );
    }
}

#[test]
fn error_messages_are_fixed() {
    assert_eq!(
        ErrorKind::CommandNotFound.message(),
        "Command not found. Use 'help' command to see list of commands."
    );
    assert_eq!(
        ErrorKind::ExtraParametersPassed.message(),
        "Extra parameters found in the command."
    );
    assert_eq!(ErrorKind::PathNotFound.message(), "Path not found.");
    assert_eq!(
        ErrorKind::DirectoryNotFound.message(),
        "Directory not found. Please check spelling and case."
    );
    assert_eq!(
        ErrorKind::FileNotFound.message(),
        "File not found in directory. Please check spelling and case."
    );
    assert_eq!(
        ErrorKind::FileNotDirectory.message(),
        "This is a file, not a directory. Directories end with a '/'"
    );
}
