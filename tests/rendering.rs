use code_cli::{
    CliError, FormatError, ParseAttempts, SearchResponse, SearchResult, format_results,
    format_search_results, search_command_output,
};

fn result(file: &str, content: &str) -> SearchResult {
    SearchResult {
        file: file.to_string(),
        start_line: 3,
        end_line: -12,
        score: format!("{}", 0.75f64),
        language: "rust".to_string(),
        content: content.to_string(),
    }
}

fn none() -> ParseAttempts {
    ParseAttempts { wrapper: None, single: None, list: None }
}

#[test]
fn block_layout() {
    let out = format_results(&[result("a.rs", "fn main() {}")]);
    assert_eq!(
        out,
        "file: a.rs\nstartLine: 3\nendLine: -12\nscore: 0.75\nlanguage: rust\n\nfn main() {}\n\n---\n"
    );
}

#[test]
fn escaped_newlines_become_real() {
    let out = format_results(&[result("a", "line1\\nline2")]);
    assert!(out.contains("\n\nline1\nline2\n\n---\n"));
    let out = format_results(&[result("a", "x\\r\\ny")]);
    assert!(out.contains("\n\nx\r\ny\n\n---\n"));
}

#[test]
fn plain_content_unchanged() {
    let out = format_results(&[result("a", "no escapes \\t here")]);
    assert!(out.contains("\n\nno escapes \\t here\n\n---\n"));
}

#[test]
fn wrapped_results_give_one_block_each() {
    let rs = vec![result("a", "x"), result("b", "y"), result("c", "z")];
    let attempts = ParseAttempts {
        wrapper: Some(SearchResponse { results: Some(rs) }),
        single: None,
        list: None,
    };
    let out = format_search_results(&attempts).unwrap();
    assert_eq!(out.matches("\n---\n").count(), 3);
    assert_eq!(out.matches("file: ").count(), 3);
    assert!(out.starts_with("file: a\n"));
}

#[test]
fn empty_wrapped_results_give_empty_output() {
    let attempts = ParseAttempts {
        wrapper: Some(SearchResponse { results: Some(vec![]) }),
        single: None,
        list: None,
    };
    assert_eq!(format_search_results(&attempts).unwrap(), "");
}

#[test]
fn single_object_formats_as_wrapped() {
    let bare = ParseAttempts {
        wrapper: Some(SearchResponse { results: None }),
        single: Some(result("a", "x\\ny")),
        list: None,
    };
    let wrapped = ParseAttempts {
        wrapper: Some(SearchResponse { results: Some(vec![result("a", "x\\ny")]) }),
        single: None,
        list: None,
    };
    assert_eq!(format_search_results(&bare).unwrap(), format_search_results(&wrapped).unwrap());
}

#[test]
fn bare_list_is_last_fallback() {
    let attempts = ParseAttempts { wrapper: None, single: None, list: Some(vec![result("b", "q")]) };
    assert!(format_search_results(&attempts).unwrap().starts_with("file: b\n"));
}

#[test]
fn wrapper_wins_over_list() {
    let attempts = ParseAttempts {
        wrapper: Some(SearchResponse { results: Some(vec![result("w", "1")]) }),
        single: None,
        list: Some(vec![result("l", "2")]),
    };
    assert!(format_search_results(&attempts).unwrap().starts_with("file: w\n"));
}

#[test]
fn no_shape_is_format_error() {
    assert_eq!(format_search_results(&none()), Err(FormatError));
    assert_eq!(search_command_output(&none()), Err(CliError::Format(FormatError)));
    assert_eq!(FormatError.message(), "Failed to parse search response");
}
