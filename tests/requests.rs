use code_cli::{
    CliError, IndexPathRequest, Method, PathError, SearchParams, TransportError, check_status,
    execute_index, execute_search, execute_unindex, index_output,
};

#[test]
fn index_request_scenario() {
    let req = execute_index("/tmp/proj", true, "/home/u").unwrap();
    assert_eq!(req.method, Method::Post);
    assert_eq!(req.url, "http://localhost:19531/api/index/");
    assert_eq!(req.body.unwrap(), r#"{"path":"/tmp/proj","force":true}"#);
    let out = index_output(check_status(200, "OK".to_string())).unwrap();
    assert_eq!(out, "OK\n");
}

#[test]
fn index_relative_path() {
    let req = execute_index("proj", false, "/tmp").unwrap();
    assert_eq!(req.body.unwrap(), r#"{"path":"/tmp/proj","force":false}"#);
}

#[test]
fn index_body_escapes_path() {
    let r = IndexPathRequest { path: "/a\"b\\c".to_string(), force: false };
    assert_eq!(r.to_json(), r#"{"path":"/a\"b\\c","force":false}"#);
}

#[test]
fn search_request_scenario() {
    let req = execute_search("/tmp/proj", "foo".to_string(), 2, None, "/").unwrap();
    assert_eq!(req.method, Method::Get);
    assert!(req.body.is_none());
    assert_eq!(req.url, "http://localhost:19531/api/search/?path=%2Ftmp%2Fproj&query=foo&limit=2");
}

#[test]
fn search_query_encodes_values() {
    let p = SearchParams {
        path: "/a b".to_string(),
        query: "fn é!".to_string(),
        limit: 15,
        extensions: Some(".go,.js".to_string()),
    };
    assert_eq!(p.query_string(), "path=%2Fa%20b&query=fn%20%C3%A9%21&limit=15&extensions=.go%2C.js");
}

#[test]
fn unindex_request_sends_force_false() {
    let req = execute_unindex("/tmp/proj", "/").unwrap();
    assert_eq!(req.method, Method::Delete);
    assert_eq!(req.url, "http://localhost:19531/api/index/");
    assert_eq!(req.body.unwrap(), r#"{"path":"/tmp/proj","force":false}"#);
}

#[test]
fn empty_path_fails_every_command() {
    assert!(execute_index("", true, "/").err() == Some(CliError::InvalidPath(PathError::Empty)));
    assert!(execute_unindex("", "/").err() == Some(CliError::InvalidPath(PathError::Empty)));
    assert!(execute_search("", "q".to_string(), 5, None, "/").err()
        == Some(CliError::InvalidPath(PathError::Empty)));
}

#[test]
fn server_error_status_fails() {
    let r = check_status(500, "boom".to_string());
    assert_eq!(r, Err(TransportError::Status(500)));
    let err = index_output(r).unwrap_err();
    assert_eq!(err, CliError::Transport(TransportError::Status(500)));
    assert!(err.message().contains("500"));
}

#[test]
fn status_bounds() {
    assert_eq!(check_status(299, "x".to_string()), Ok("x".to_string()));
    assert_eq!(check_status(199, "x".to_string()), Err(TransportError::Status(199)));
    assert_eq!(check_status(300, "x".to_string()), Err(TransportError::Status(300)));
}
