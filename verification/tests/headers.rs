use reqwest::header::HeaderMap;
use semaphore_client::client::authentication::AuthInfo;
use semaphore_client::client::error::ClientError;
use semaphore_client::client::headers::derive_headers;

fn value_of(headers: &HeaderMap, name: &str) -> Vec<u8> {
    headers.get(name).expect("the field is set").as_bytes().to_vec()
}

#[test]
fn token_gives_bearer_authorization() {
    let headers = derive_headers(&AuthInfo::Token("abc123".to_string())).unwrap();
    assert_eq!(headers.len(), 1);
    assert_eq!(headers.keys_len(), 1);
    assert_eq!(value_of(&headers, "Authorization"), b"Bearer abc123".to_vec());
    assert_eq!(value_of(&headers, "authorization"), b"Bearer abc123".to_vec());
    assert!(headers.get("Cookie").is_none());
}

#[test]
fn session_cookie_gives_semaphore_cookie() {
    let headers = derive_headers(&AuthInfo::SessionCookie("s-42".to_string())).unwrap();
    assert_eq!(headers.len(), 1);
    assert_eq!(value_of(&headers, "Cookie"), b"semaphore=s-42".to_vec());
    assert!(headers.get("Authorization").is_none());
}

#[test]
fn password_gives_no_header() {
    let auth = AuthInfo::Password("admin".to_string(), "hunter2".to_string());
    let headers = derive_headers(&auth).unwrap();
    assert_eq!(headers.len(), 0);
    assert!(headers.is_empty());
}

#[test]
fn password_with_control_characters_still_gives_no_header() {
    let auth = AuthInfo::Password("ad\nmin".to_string(), "pass\u{0}word".to_string());
    assert!(derive_headers(&auth).unwrap().is_empty());
}

#[test]
fn token_with_newline_is_refused() {
    let derived = derive_headers(&AuthInfo::Token("abc\ndef".to_string()));
    assert_eq!(derived.err(), Some(ClientError::InvalidHeaderValue));
}

#[test]
fn session_cookie_with_carriage_return_is_refused() {
    let derived = derive_headers(&AuthInfo::SessionCookie("abc\r".to_string()));
    assert_eq!(derived.err(), Some(ClientError::InvalidHeaderValue));
}

#[test]
fn token_with_delete_or_nul_is_refused() {
    let with_delete = derive_headers(&AuthInfo::Token("a\u{7f}b".to_string()));
    assert_eq!(with_delete.err(), Some(ClientError::InvalidHeaderValue));
    let with_nul = derive_headers(&AuthInfo::Token("\u{0}".to_string()));
    assert_eq!(with_nul.err(), Some(ClientError::InvalidHeaderValue));
    let with_unit_separator = derive_headers(&AuthInfo::Token("a\u{1f}".to_string()));
    assert_eq!(with_unit_separator.err(), Some(ClientError::InvalidHeaderValue));
}

#[test]
fn token_with_tab_and_space_is_accepted() {
    let headers = derive_headers(&AuthInfo::Token("a\tb c".to_string())).unwrap();
    assert_eq!(value_of(&headers, "Authorization"), b"Bearer a\tb c".to_vec());
}

#[test]
fn token_beyond_ascii_is_carried_as_utf8() {
    let headers = derive_headers(&AuthInfo::Token("k\u{e9}y\u{20ac}".to_string())).unwrap();
    assert_eq!(
        value_of(&headers, "Authorization"),
        "Bearer k\u{e9}y\u{20ac}".as_bytes().to_vec()
    );
}

#[test]
fn empty_token_gives_bare_prefix() {
    let headers = derive_headers(&AuthInfo::Token(String::new())).unwrap();
    assert_eq!(value_of(&headers, "Authorization"), b"Bearer ".to_vec());
}

#[test]
fn each_field_has_one_value() {
    let headers = derive_headers(&AuthInfo::SessionCookie("x".to_string())).unwrap();
    assert_eq!(headers.get_all("cookie").iter().count(), 1);
}

#[test]
fn fields_are_filed_in_lower_case() {
    let token = derive_headers(&AuthInfo::Token("t".to_string())).unwrap();
    let names: Vec<String> = token.keys().map(|name| name.as_str().to_string()).collect();
    assert_eq!(names, vec!["authorization".to_string()]);
    let session = derive_headers(&AuthInfo::SessionCookie("s".to_string())).unwrap();
    let names: Vec<String> = session.keys().map(|name| name.as_str().to_string()).collect();
    assert_eq!(names, vec!["cookie".to_string()]);
}
