use semaphore_client::client::endpoints::{endpoint_url, login_url, tokens_url};

#[test]
fn login_url_appends_path() {
    assert_eq!(login_url("http://localhost:3000"), "http://localhost:3000/api/auth/login");
}

#[test]
fn tokens_url_appends_path() {
    assert_eq!(tokens_url("https://sem.example"), "https://sem.example/api/user/tokens");
}

#[test]
fn endpoint_url_joins_with_slash() {
    assert_eq!(
        endpoint_url("https://sem.example", "api/projects"),
        "https://sem.example/api/projects"
    );
}

#[test]
fn urls_keep_base_as_given() {
    assert_eq!(login_url("http://h/"), "http://h//api/auth/login");
    assert_eq!(endpoint_url("", ""), "/");
    assert_eq!(tokens_url(""), "/api/user/tokens");
}
