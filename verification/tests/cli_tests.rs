use nettest::cli::{
    args_from_c, args_or_error_reply, error_response, parse_args_json, select_mode, started_response,
    success_response, wants_help, RunMode,
};
use nettest::json::escape_json;

fn error_of(reply: &str) -> String {
    let v: serde_json::Value = serde_json::from_str(reply).expect("the reply is JSON");
    v["error"].as_str().expect("an error member").to_string()
}

fn strings(v: &[&str]) -> Vec<String> {
    v.iter().map(|s| s.to_string()).collect()
}

#[test]
fn help_is_found_anywhere() {
    assert!(wants_help(&strings(&["--server", "x", "-h"])));
    assert!(wants_help(&strings(&["--help"])));
    assert!(!wants_help(&strings(&["-c", "--server", "-help"])));
    assert!(!wants_help(&vec![]));
}

#[test]
fn modes() {
    assert_eq!(select_mode(&strings(&["nettest"])), RunMode::Client);
    assert_eq!(select_mode(&strings(&["nettest", "-c", "-t", "4"])), RunMode::Client);
    assert_eq!(select_mode(&strings(&["nettest", "-s"])), RunMode::Server);
    assert_eq!(select_mode(&strings(&["nettest", "-h"])), RunMode::Usage { invalid: false });
    assert_eq!(select_mode(&strings(&["nettest", "--help"])), RunMode::Usage { invalid: false });
    assert_eq!(select_mode(&strings(&["nettest", "-x"])), RunMode::Usage { invalid: true });
}

#[test]
fn args_from_json() {
    let r = parse_args_json(r#"["-c", "--server", "example.com"]"#);
    assert_eq!(r, Ok(strings(&["-c", "--server", "example.com"])));
    assert_eq!(parse_args_json("[]"), Ok(vec![]));
}

#[test]
fn bad_args_json_gives_error_reply() {
    let expected = serde_json::from_str::<Vec<String>>("\"x\"").unwrap_err().to_string();
    let r = parse_args_json("\"x\"").unwrap_err();
    assert_eq!(error_of(&r), format!("Invalid args JSON: {}", expected));
    assert!(expected.contains("\"x\""));
    let expected = serde_json::from_str::<Vec<String>>("[1, 2]").unwrap_err().to_string();
    let r = parse_args_json("[1, 2]").unwrap_err();
    assert_eq!(error_of(&r), format!("Invalid args JSON: {}", expected));
}

#[test]
fn replies() {
    assert_eq!(error_response("boom"), "{\"error\": \"boom\"}");
    assert_eq!(success_response(), "{\"success\": true}");
    assert_eq!(started_response(), "{\"success\": true, \"message\": \"Test started in background\"}");
    assert_eq!(
        args_or_error_reply(Err("bad \"x\"".to_string())),
        Err("{\"error\": \"Invalid args JSON: bad \\\"x\\\"\"}".to_string())
    );
    assert_eq!(args_or_error_reply(Ok(strings(&["a"]))), Ok(strings(&["a"])));
}

#[test]
fn error_replies_are_json() {
    for m in ["plain", "quote \" here", "back\\slash", "line\nbreak\r\ttab", "bell\u{7}\u{1f}\u{8}\u{c}", "ü €"] {
        let reply = error_response(m);
        assert_eq!(error_of(&reply), m);
    }
}

#[test]
fn escaping() {
    assert_eq!(escape_json("a\"b\\c"), "a\\\"b\\\\c");
    assert_eq!(escape_json("\n\r\t\u{8}\u{c}"), "\\n\\r\\t\\b\\f");
    assert_eq!(escape_json("\u{0}\u{1b}"), "\\u0000\\u001b");
    assert_eq!(escape_json("/ü"), "/ü");
}

#[test]
fn args_through_the_c_interface() {
    assert_eq!(args_from_c(None), Ok(vec![]));
    assert_eq!(args_from_c(Some(b"[\"-c\"]")), Ok(strings(&["-c"])));
    let bad = [b'[', 0xff, b']'];
    let expected = std::str::from_utf8(&bad).unwrap_err().to_string();
    let r = args_from_c(Some(&bad)).unwrap_err();
    assert_eq!(error_of(&r), format!("Failed to parse args JSON: {}", expected));
    let r = args_from_c(Some(b"{}")).unwrap_err();
    assert!(error_of(&r).starts_with("Invalid args JSON: "));
}

#[test]
fn no_args_and_empty_array_agree() {
    assert_eq!(args_from_c(None), args_from_c(Some(b"[]")));
    assert_eq!(args_from_c(Some(b"[]")), Ok(vec![]));
}
