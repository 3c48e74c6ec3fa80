use webterm::catalog::Catalog;
use webterm::navigator::Navigator;
use webterm::outcome::ErrorKind;
use webterm::site::default_catalog;

#[test]
fn catalog_unknown_directory_is_path_not_found() {
    let cat = default_catalog();
    match cat.list_children("/nope/") {
        Err(ErrorKind::PathNotFound) => {}
        _ => panic!("expected PathNotFound"),
    }
}

#[test]
fn catalog_lists_root_children_in_order() {
    let cat = default_catalog();
    let children = cat.list_children("/").expect("root must exist");
    assert_eq!(
        children,
        &vec![
            "about/".to_string(),
            "projects/".to_string(),
            "work/".to_string(),
            "random/".to_string(),
        ]
    );
}

#[test]
fn catalog_reads_exact_file_content() {
    let cat = default_catalog();
    let content = cat.read_file("/about/secrets/shhh").expect("file must exist");
    assert_eq!(content, "There's an `exit` command. Don't try that.");
}

#[test]
fn catalog_missing_file_is_file_not_found() {
    let cat = default_catalog();
    match cat.read_file("/about/") {
        Err(ErrorKind::FileNotFound) => {}
        _ => panic!("expected FileNotFound"),
    }
}

#[test]
fn navigator_enter_and_leave() {
    let cat = default_catalog();
    let mut nav = Navigator::new(&cat);
    assert_eq!(nav.current_absolute_path(), "/");
    nav.enter(&cat, "about").expect("about/ is a child of the root");
    assert_eq!(nav.current_absolute_path(), "/about/");
    nav.enter(&cat, "secrets").expect("secrets/ is a child of /about/");
    assert_eq!(nav.current_absolute_path(), "/about/secrets/");
    assert!(nav.leave(&cat));
    assert_eq!(nav.current_absolute_path(), "/about/");
}

#[test]
fn navigator_leave_at_root_is_a_no_op() {
    let cat = default_catalog();
    let mut nav = Navigator::new(&cat);
    assert!(!nav.leave(&cat));
    assert_eq!(nav.current_absolute_path(), "/");
}

#[test]
fn navigator_enter_file_is_file_not_directory() {
    let cat = default_catalog();
    let mut nav = Navigator::new(&cat);
    nav.enter(&cat, "about").expect("about/ is a child of the root");
    match nav.enter(&cat, "summary") {
        Err(ErrorKind::FileNotDirectory) => {}
        _ => panic!("expected FileNotDirectory"),
    }
    assert_eq!(nav.current_absolute_path(), "/about/");
}

#[test]
fn navigator_enter_unknown_is_directory_not_found() {
    let cat = default_catalog();
    let mut nav = Navigator::new(&cat);
    match nav.enter(&cat, "attic") {
        Err(ErrorKind::DirectoryNotFound) => {}
        _ => panic!("expected DirectoryNotFound"),
    }
    assert_eq!(nav.current_absolute_path(), "/");
}

#[test]
fn current_path_is_always_a_catalog_key() {
    let cat = default_catalog();
    let mut nav = Navigator::new(&cat);
    assert!(cat.list_children(&nav.current_absolute_path()).is_ok());
    nav.enter(&cat, "about").expect("about/ is a child of the root");
    assert!(cat.list_children(&nav.current_absolute_path()).is_ok());
    nav.enter(&cat, "secrets").expect("secrets/ is a child of /about/");
    assert!(cat.list_children(&nav.current_absolute_path()).is_ok());
    nav.leave(&cat);
    assert!(cat.list_children(&nav.current_absolute_path()).is_ok());
    nav.reset_to_root(&cat);
    assert!(cat.list_children(&nav.current_absolute_path()).is_ok());
    // The directory referenced by the root without contents of its own.
    nav.enter(&cat, "work").expect("work/ is a child of the root");
    assert!(cat.list_children(&nav.current_absolute_path()).is_ok());
}

#[test]
fn empty_catalog_still_has_a_root() {
    let cat = Catalog::new_rooted();
    let children = cat.list_children("/").expect("root must exist");
    assert!(children.is_empty());
}
