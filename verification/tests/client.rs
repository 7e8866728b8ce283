use semaphore_client::client::authentication::{AuthInfo, LoginMetadata, OIDCProvider, Token};
use semaphore_client::client::error::ClientError;
use semaphore_client::client::Semaphore;

#[test]
fn client_keeps_base_url_and_credential() {
    let made = Semaphore::new("http://localhost:3000", AuthInfo::Token("abc".to_string()));
    let semaphore = made.ok().expect("a client for a legal token");
    assert_eq!(semaphore.base_url, "http://localhost:3000");
    assert_eq!(semaphore.auth, AuthInfo::Token("abc".to_string()));
}

#[test]
fn client_for_password_is_built_without_headers() {
    let auth = AuthInfo::Password("admin".to_string(), "pw\n".to_string());
    let semaphore = Semaphore::new("http://h", auth.clone()).ok().expect("a client");
    assert_eq!(semaphore.auth, auth);
}

#[test]
fn token_with_newline_builds_no_client() {
    let made = Semaphore::new("http://localhost:3000", AuthInfo::Token("abc\n".to_string()));
    assert_eq!(made.err(), Some(ClientError::InvalidHeaderValue));
}

#[test]
fn session_cookie_with_control_character_builds_no_client() {
    let made = Semaphore::new("http://h", AuthInfo::SessionCookie("\u{1}".to_string()));
    assert_eq!(made.err(), Some(ClientError::InvalidHeaderValue));
}

#[test]
fn client_is_made_from_a_built_http_client() {
    let built = reqwest::Client::builder().build();
    let made = Semaphore::from_built("http://h", AuthInfo::SessionCookie("s".to_string()), built);
    let semaphore = made.ok().expect("the attempt succeeded");
    assert_eq!(semaphore.base_url, "http://h");
    assert_eq!(semaphore.auth, AuthInfo::SessionCookie("s".to_string()));
}

#[test]
fn failed_build_is_a_transport_error() {
    let failure = reqwest::Client::new().get("no address").build().err().expect("a bad address");
    let text = failure.to_string();
    let made = Semaphore::from_built("http://h", AuthInfo::Token("t".to_string()), Err(failure));
    assert_eq!(made.err(), Some(ClientError::TransportError(text)));
}

#[test]
fn records_hold_what_the_server_sent() {
    let provider = OIDCProvider { id: "gh".to_string(), name: "GitHub".to_string() };
    let metadata = LoginMetadata {
        oidc_providers: vec![provider.clone(), provider.clone()],
        login_with_password: true,
    };
    assert_eq!(metadata.oidc_providers.len(), 2);
    assert_eq!(metadata.oidc_providers[1], provider);
    let token = Token {
        id: "tok".to_string(),
        created: "2024-01-01T00:00:00Z".to_string(),
        expired: false,
        user_id: 7,
    };
    assert_eq!(token.user_id, 7);
    assert!(!token.expired);
}
