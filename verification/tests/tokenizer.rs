use webterm::text::tokenize;
use webterm::text::trim;

#[test]
fn tokenize_splits_on_whitespace_runs() {
    let words = tokenize("  ls    -l\t x ");
    assert_eq!(words, vec!["ls".to_string(), "-l".to_string(), "x".to_string()]);
}

#[test]
fn tokenize_single_word() {
    assert_eq!(tokenize("pwd"), vec!["pwd".to_string()]);
}

#[test]
fn tokenize_empty_and_blank_lines() {
    assert_eq!(tokenize(""), Vec::<String>::new());
    assert_eq!(tokenize("   \t  "), Vec::<String>::new());
}

#[test]
fn tokenize_mixed_whitespace_kinds() {
    assert_eq!(
        tokenize("\tcd\nabout\r "),
        vec!["cd".to_string(), "about".to_string()]
    );
}

#[test]
fn trim_removes_leading_and_trailing_whitespace() {
    assert_eq!(trim("  clear \t"), "clear".to_string());
    assert_eq!(trim("clear"), "clear".to_string());
    assert_eq!(trim("   "), "".to_string());
    assert_eq!(trim("a b"), "a b".to_string());
}
