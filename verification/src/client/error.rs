//! The failures that the client reports.

use vstd::prelude::*;

verus! {

/// Every way in which an operation of the client can fail.
#[derive(Debug, Clone, PartialEq, Eq)]
pub enum ClientError {
    /// A credential holds a character that cannot stand in a header value.
    InvalidHeaderValue,
    /// The server refused the login: the status it answered with and, where
    /// there was one, the body of its answer.
    AuthenticationRejected(u16, Option<String>),
    /// The server accepted the login but set no session cookie.
    SessionCookieMissing,
    /// The request did not complete; the text describes the cause.
    TransportError(String),
    /// The request was cancelled or timed out cooperatively.
    Cancelled,
    /// An answer's body did not have the expected shape.
    DecodeError(String),
}

/// The mathematical value of an [`ClientError`].
pub enum ClientErrorView {
    InvalidHeaderValue,
    AuthenticationRejected(u16, Option<Seq<char>>),
    SessionCookieMissing,
    TransportError(Seq<char>),
    Cancelled,
    DecodeError(Seq<char>),
}

impl View for ClientError {
    type V = ClientErrorView;

    open spec fn view(&self) -> ClientErrorView {
        match *self {
            ClientError::InvalidHeaderValue => ClientErrorView::InvalidHeaderValue,
            ClientError::AuthenticationRejected(status, body) => ClientErrorView::AuthenticationRejected(
                status,
                match body {
                    Some(text) => Some(text@),
                    None => None,
                },
            ),
            ClientError::SessionCookieMissing => ClientErrorView::SessionCookieMissing,
            ClientError::TransportError(cause) => ClientErrorView::TransportError(cause@),
            ClientError::Cancelled => ClientErrorView::Cancelled,
            ClientError::DecodeError(cause) => ClientErrorView::DecodeError(cause@),
        }
    }
}

} // verus!
