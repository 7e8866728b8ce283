//! Credentials and the records that the authentication endpoints exchange.

use vstd::prelude::*;

verus! {

/// Describes how to authenticate to the Semaphore UI instance.
#[derive(Debug, Clone, PartialEq, Eq)]
pub enum AuthInfo {
    /// If the user already has a token, this can be used to authenticate.
    Token(String),
    /// If the instance allows password authentication, this can be used to
    /// obtain a session which is used for further requests.
    Password(String, String),
    /// If a session has already been obtained the session cookie can be used to
    /// authenticate.
    SessionCookie(String),
}

/// The mathematical value of an [`AuthInfo`]: the same three cases over
/// sequences of characters.
pub enum Credential {
    Token(Seq<char>),
    Password(Seq<char>, Seq<char>),
    SessionCookie(Seq<char>),
}

impl View for AuthInfo {
    type V = Credential;

    open spec fn view(&self) -> Credential {
        match *self {
            AuthInfo::Token(token) => Credential::Token(token@),
            AuthInfo::Password(username, password) => Credential::Password(username@, password@),
            AuthInfo::SessionCookie(session_id) => Credential::SessionCookie(session_id@),
        }
    }
}

/// An OIDC provider that the instance offers for logging in.
#[derive(Debug, Clone, PartialEq, Eq)]
pub struct OIDCProvider {
    pub id: String,
    pub name: String,
}

/// The ways of logging in that the instance advertises: its OIDC providers,
/// in the order and with the repetitions in which the server lists them, and
/// whether it accepts a password.
#[derive(Debug, Clone, PartialEq, Eq)]
pub struct LoginMetadata {
    pub oidc_providers: Vec<OIDCProvider>,
    pub login_with_password: bool,
}

/// An access token that the server manages for a user. The client carries
/// `created` and `expired` as the server gave them and reads neither.
#[derive(Debug, Clone, PartialEq, Eq)]
pub struct Token {
    pub id: String,
    pub created: String,
    pub expired: bool,
    pub user_id: u64,
}

} // verus!
