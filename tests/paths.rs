use code_cli::{PathError, escape_path, to_absolute};

#[test]
fn relative_path_joins_cwd() {
    assert_eq!(to_absolute("proj/src", "/home/u").unwrap(), "/home/u/proj/src");
}

#[test]
fn relative_path_under_root_cwd() {
    assert_eq!(to_absolute("proj", "/").unwrap(), "/proj");
}

#[test]
fn absolute_path_is_kept() {
    assert_eq!(to_absolute("/tmp/proj", "/home/u").unwrap(), "/tmp/proj");
}

#[test]
fn empty_path_is_refused() {
    assert_eq!(to_absolute("", "/home/u"), Err(PathError::Empty));
    assert_eq!(PathError::Empty.message(), "path cannot be empty");
}

#[test]
fn escape_backslash_and_quote() {
    assert_eq!(escape_path(r#"C:\dir\"x""#), r#"C:\\dir\\\"x\""#);
}

#[test]
fn escape_leaves_plain_path() {
    assert_eq!(escape_path("/tmp/proj"), "/tmp/proj");
    assert_eq!(escape_path(""), "");
}

#[test]
fn escape_distinguishes_inputs() {
    assert_ne!(escape_path("a\\\""), escape_path("a\"\\"));
    assert_eq!(escape_path("\\"), "\\\\");
    assert_eq!(escape_path("\""), "\\\"");
}
