use semaphore_client::client::json::{frame_login_body, login_body};

#[test]
fn login_body_is_compact_object() {
    assert_eq!(
        login_body("alice", "s3cret"),
        "{\"auth\":\"alice\",\"password\":\"s3cret\"}"
    );
}

#[test]
fn login_body_escapes_quotes_and_backslashes() {
    assert_eq!(
        login_body("a\"b", "c\\d"),
        "{\"auth\":\"a\\\"b\",\"password\":\"c\\\\d\"}"
    );
}

#[test]
fn login_body_escapes_control_characters() {
    assert_eq!(
        login_body("line\nbreak", "tab\tbell\u{7}"),
        "{\"auth\":\"line\\nbreak\",\"password\":\"tab\\tbell\\u0007\"}"
    );
}

#[test]
fn login_body_keeps_text_beyond_ascii() {
    assert_eq!(
        login_body("j\u{fc}rgen", "\u{1f511}"),
        "{\"auth\":\"j\u{fc}rgen\",\"password\":\"\u{1f511}\"}"
    );
}

#[test]
fn login_body_of_empty_texts() {
    assert_eq!(login_body("", ""), "{\"auth\":\"\",\"password\":\"\"}");
}

#[test]
fn login_body_is_the_json_that_serde_reads_back() {
    let body = login_body("ad\"min", "p\\w\n");
    let read: serde_json::Value = serde_json::from_str(&body).unwrap();
    assert_eq!(read.get("auth").and_then(|v| v.as_str()), Some("ad\"min"));
    assert_eq!(read.get("password").and_then(|v| v.as_str()), Some("p\\w\n"));
    assert_eq!(read.as_object().map(|o| o.len()), Some(2));
}

#[test]
fn frame_puts_members_in_place() {
    assert_eq!(frame_login_body("1", "2"), "{\"auth\":1,\"password\":2}");
}
