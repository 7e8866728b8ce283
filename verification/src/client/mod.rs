//! The client: a base address, a credential, and the HTTP client that
//! carries the credential's default headers.

pub mod authentication;
pub mod endpoints;
pub mod error;
pub mod headers;
pub mod json;
pub mod session;

use vstd::prelude::*;
use reqwest::header::{HeaderMap, HeaderValue};
use reqwest::Client;
use authentication::AuthInfo;
use error::{ClientError, ClientErrorView};
use headers::{derive_headers, has_legal_header, header_fields, FIELD_ROOM};

verus! {

/// `reqwest::Client`, the HTTP client. The library builds one and carries
/// it; it never looks inside.
#[verifier::external_type_specification]
#[verifier::external_body]
pub struct ExClient(reqwest::Client);

/// `reqwest::Error`, the error of a client that could not be built. The
/// library reads nothing of it but its text.
#[verifier::external_type_specification]
#[verifier::external_body]
pub struct ExRequestError(reqwest::Error);

/// `ClientBuilder::default_headers` and `ClientBuilder::build` on a fresh
/// builder. Whether a client comes back depends on the machine (the TLS
/// backend, the proxy settings of the environment), so nothing is claimed of
/// the result. The builder copies the fields into a header map of its own,
/// which has room for them while the given map is short of `FIELD_ROOM`
/// names.
#[verifier::external_body]
fn build_client(headers: HeaderMap<HeaderValue>) -> (built: Result<Client, reqwest::Error>)
    requires
        header_fields(headers).dom().finite(),
        header_fields(headers).dom().len() < FIELD_ROOM,
{
    Client::builder().default_headers(headers).build()
}

/// `Display` of `reqwest::Error`: the text that describes the error.
#[verifier::external_body]
fn describe(error: &reqwest::Error) -> (text: String) {
    error.to_string()
}

/// A client for one Semaphore instance.
pub struct Semaphore {
    /// The address under which the instance's endpoints lie.
    pub base_url: String,
    /// The HTTP client, built with the default headers of `auth`.
    pub client: Client,
    /// The credential that the client was built for.
    pub auth: AuthInfo,
}

impl Semaphore {
    /// Builds a client for the instance at `base_url` that authenticates
    /// with `auth`.
    ///
    /// The default headers are derived from the credential first: a
    /// credential whose header cannot be written fails with
    /// [`ClientError::InvalidHeaderValue`], and no HTTP client is built. With the
    /// headers in hand the HTTP client is built; if the machine cannot set
    /// one up, the failure comes back as [`ClientError::TransportError`].
    pub fn new(base_url: &str, auth: AuthInfo) -> (made: Result<Semaphore, ClientError>)
        ensures
            !has_legal_header(auth@) ==> made is Err && made->Err_0@
                == ClientErrorView::InvalidHeaderValue,
            has_legal_header(auth@) ==> match made {
                Ok(semaphore) => semaphore.base_url@ == base_url@ && semaphore.auth == auth,
                Err(error) => error is TransportError,
            },
    {
        match derive_headers(&auth) {
            Ok(headers) => Semaphore::from_built(base_url, auth, build_client(headers)),
            Err(error) => Err(error),
        }
    }

    /// Makes the client out of an attempt to build its HTTP client: the
    /// client with the given parts if the attempt succeeded, and
    /// [`ClientError::TransportError`] if it failed.
    pub fn from_built(base_url: &str, auth: AuthInfo, built: Result<Client, reqwest::Error>) -> (made:
        Result<Semaphore, ClientError>)
        ensures
            match built {
                Ok(client) => {
                    &&& made is Ok
                    &&& made->Ok_0.base_url@ == base_url@
                    &&& made->Ok_0.client == client
                    &&& made->Ok_0.auth == auth
                },
                Err(_) => made is Err && made->Err_0 is TransportError,
            },
    {
        match built {
            Ok(client) => Ok(Semaphore { base_url: base_url.to_owned(), client, auth }),
            Err(error) => Err(ClientError::TransportError(describe(&error))),
        }
    }
}

} // verus!
