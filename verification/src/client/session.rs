//! The exchange of a password for a session.
//!
//! An exchange is a small state machine. It starts from the credential and
//! either needs no request at all or names the one login request to send.
//! Whoever sends that request reports what came of it as a
//! [`TransportEvent`], and the exchange ends in a session or in an error.
//! Nothing is kept between exchanges.

use vstd::prelude::*;
use crate::client::authentication::{AuthInfo, Credential};
use crate::client::endpoints::login_url;
use crate::client::error::{ClientError, ClientErrorView};
use crate::client::json::{json_string_text, login_body, login_body_frame};

verus! {

/// A cookie that a response set: its name and its value.
#[derive(Debug, Clone, PartialEq, Eq)]
pub struct Cookie {
    pub name: String,
    pub value: String,
}

/// The mathematical value of a [`Cookie`].
pub struct CookieView {
    pub name: Seq<char>,
    pub value: Seq<char>,
}

impl View for Cookie {
    type V = CookieView;

    open spec fn view(&self) -> CookieView {
        CookieView { name: self.name@, value: self.value@ }
    }
}

/// The login request of an exchange: a `POST` to `url` with the JSON text
/// `body`.
#[derive(Debug, Clone, PartialEq, Eq)]
pub struct LoginRequest {
    pub url: String,
    pub body: String,
}

/// The mathematical value of a [`LoginRequest`].
pub struct LoginRequestView {
    pub url: Seq<char>,
    pub body: Seq<char>,
}

impl View for LoginRequest {
    type V = LoginRequestView;

    open spec fn view(&self) -> LoginRequestView {
        LoginRequestView { url: self.url@, body: self.body@ }
    }
}

/// What came of sending a request.
#[derive(Debug, Clone, PartialEq, Eq)]
pub enum TransportEvent {
    /// The server answered: its status, the cookies it set in the order in
    /// which it set them, and the body of the answer where there was one.
    Response { status: u16, cookies: Vec<Cookie>, body: Option<String> },
    /// The request did not complete; the text describes the cause.
    Failure(String),
    /// The request was cancelled or timed out cooperatively.
    Cancelled,
}

/// The mathematical value of a [`TransportEvent`].
pub enum TransportEventView {
    Response { status: u16, cookies: Seq<CookieView>, body: Option<Seq<char>> },
    Failure(Seq<char>),
    Cancelled,
}

/// The values of a sequence of cookies, in the same order.
pub open spec fn cookie_views(cookies: Seq<Cookie>) -> Seq<CookieView> {
    Seq::new(cookies.len(), |i: int| cookies[i]@)
}

/// The value of a text that may be absent.
pub open spec fn text_view(text: Option<String>) -> Option<Seq<char>> {
    match text {
        Some(text) => Some(text@),
        None => None,
    }
}

impl View for TransportEvent {
    type V = TransportEventView;

    open spec fn view(&self) -> TransportEventView {
        match *self {
            TransportEvent::Response { status, cookies, body } => TransportEventView::Response {
                status,
                cookies: cookie_views(cookies@),
                body: text_view(body),
            },
            TransportEvent::Failure(cause) => TransportEventView::Failure(cause@),
            TransportEvent::Cancelled => TransportEventView::Cancelled,
        }
    }
}

/// The state of an exchange.
#[derive(Debug, Clone, PartialEq, Eq)]
pub enum Exchange {
    /// The credential needs no exchange. The exchange has ended without a
    /// session.
    NotNeeded,
    /// The login request is to be sent, or is in flight.
    Requesting(LoginRequest),
    /// The server handed out a session. The exchange has ended.
    Obtained(String),
    /// The exchange has ended in an error.
    Failed(ClientError),
}

/// The mathematical value of an [`Exchange`].
pub enum ExchangeView {
    NotNeeded,
    Requesting(LoginRequestView),
    Obtained(Seq<char>),
    Failed(ClientErrorView),
}

impl View for Exchange {
    type V = ExchangeView;

    open spec fn view(&self) -> ExchangeView {
        match *self {
            Exchange::NotNeeded => ExchangeView::NotNeeded,
            Exchange::Requesting(request) => ExchangeView::Requesting(request@),
            Exchange::Obtained(session_id) => ExchangeView::Obtained(session_id@),
            Exchange::Failed(error) => ExchangeView::Failed(error@),
        }
    }
}

/// What an exchange hands to its caller: a session, no session, or an error.
pub type Session = Result<Option<String>, ClientError>;

/// The mathematical value of a [`Session`].
pub type SessionView = Result<Option<Seq<char>>, ClientErrorView>;

/// The value of what an exchange hands to its caller.
pub open spec fn session_view(session: Session) -> SessionView {
    match session {
        Ok(session_id) => Ok(text_view(session_id)),
        Err(error) => Err(error@),
    }
}

/// The name of the cookie that carries the session.
pub open spec fn session_cookie_name() -> Seq<char> {
    "semaphore"@
}

/// The value of the first cookie of the given name, if there is one.
pub open spec fn first_cookie(cookies: Seq<CookieView>, name: Seq<char>) -> Option<Seq<char>>
    decreases cookies.len(),
{
    if cookies.len() == 0 {
        None
    } else if cookies[0].name == name {
        Some(cookies[0].value)
    } else {
        first_cookie(cookies.drop_first(), name)
    }
}

/// Whether a status reports success: whether it lies in 200..=299.
pub open spec fn is_success(status: u16) -> bool {
    200 <= status <= 299
}

/// The login request for a user name and a password: the login endpoint
/// under the base address, and the object with the two members as its body.
pub open spec fn login_request(
    base_url: Seq<char>,
    username: Seq<char>,
    password: Seq<char>,
) -> LoginRequestView {
    LoginRequestView {
        url: base_url + "/api/auth/login"@,
        body: login_body_frame(json_string_text(username), json_string_text(password)),
    }
}

/// The state in which an exchange starts: a password calls for the login
/// request, a token or a session cookie for nothing.
pub open spec fn started(base_url: Seq<char>, credential: Credential) -> ExchangeView {
    match credential {
        Credential::Password(username, password) => ExchangeView::Requesting(
            login_request(base_url, username, password),
        ),
        Credential::Token(_) => ExchangeView::NotNeeded,
        Credential::SessionCookie(_) => ExchangeView::NotNeeded,
    }
}

/// The state in which the login request ends on an event. A response with a
/// status of success yields the value of its first session cookie, and
/// `SessionCookieMissing` if it set none; any other status is a rejection
/// that carries the status and the body; a request that did not complete
/// is a transport error, a cancelled one is `Cancelled`.
pub open spec fn settled(event: TransportEventView) -> ExchangeView {
    match event {
        TransportEventView::Response { status, cookies, body } => {
            if is_success(status) {
                match first_cookie(cookies, session_cookie_name()) {
                    Some(session_id) => ExchangeView::Obtained(session_id),
                    None => ExchangeView::Failed(ClientErrorView::SessionCookieMissing),
                }
            } else {
                ExchangeView::Failed(ClientErrorView::AuthenticationRejected(status, body))
            }
        },
        TransportEventView::Failure(cause) => ExchangeView::Failed(ClientErrorView::TransportError(cause)),
        TransportEventView::Cancelled => ExchangeView::Failed(ClientErrorView::Cancelled),
    }
}

/// The state that follows a state on an event: a request in flight is
/// settled by the event, and a state in which the exchange has ended stays.
pub open spec fn received(state: ExchangeView, event: TransportEventView) -> ExchangeView {
    match state {
        ExchangeView::Requesting(_) => settled(event),
        _ => state,
    }
}

/// Whether the exchange has ended in a state.
pub open spec fn has_ended(state: ExchangeView) -> bool {
    !(state is Requesting)
}

/// What an exchange that has ended hands to its caller; nothing while the
/// request is in flight.
pub open spec fn outcome_of(state: ExchangeView) -> Option<SessionView> {
    match state {
        ExchangeView::NotNeeded => Some(Ok(None)),
        ExchangeView::Requesting(_) => None,
        ExchangeView::Obtained(session_id) => Some(Ok(Some(session_id))),
        ExchangeView::Failed(error) => Some(Err(error)),
    }
}

/// The first cookie of a name is the one before which no cookie has that
/// name; there is none exactly when no cookie has the name.
pub proof fn lemma_first_cookie(cookies: Seq<CookieView>, name: Seq<char>)
    ensures
        match first_cookie(cookies, name) {
            Some(value) => exists|i: int|
                {
                    &&& 0 <= i < cookies.len()
                    &&& (#[trigger] cookies[i]).name == name
                    &&& cookies[i].value == value
                    &&& forall|j: int| 0 <= j < i ==> (#[trigger] cookies[j]).name != name
                },
            None => forall|i: int| 0 <= i < cookies.len() ==> (#[trigger] cookies[i]).name != name,
        },
    decreases cookies.len(),
{
    if cookies.len() > 0 && cookies[0].name != name {
        let rest = cookies.drop_first();
        lemma_first_cookie(rest, name);
        match first_cookie(rest, name) {
            Some(value) => {
                let i = choose|i: int|
                    {
                        &&& 0 <= i < rest.len()
                        &&& (#[trigger] rest[i]).name == name
                        &&& rest[i].value == value
                        &&& forall|j: int| 0 <= j < i ==> (#[trigger] rest[j]).name != name
                    };
                assert(cookies[i + 1] == rest[i]);
                assert forall|j: int| 0 <= j < i + 1 implies (#[trigger] cookies[j]).name
                    != name by {
                    if j > 0 {
                        assert(cookies[j] == rest[j - 1]);
                    }
                }
            },
            None => {
                assert forall|i: int| 0 <= i < cookies.len() implies (#[trigger] cookies[i]).name
                    != name by {
                    if i > 0 {
                        assert(cookies[i] == rest[i - 1]);
                    }
                }
            },
        }
    } else if cookies.len() > 0 {
        assert(cookies[0].name == name);
    }
}

/// A token or a session cookie is never exchanged. Whatever the base
/// address, the exchange starts in its end: it names no request, hands out
/// no session, and no event moves it.
pub proof fn lemma_no_exchange_without_password(
    base_url: Seq<char>,
    credential: Credential,
    event: TransportEventView,
)
    requires
        !(credential is Password),
    ensures
        started(base_url, credential) == ExchangeView::NotNeeded,
        has_ended(started(base_url, credential)),
        outcome_of(started(base_url, credential)) == Some(Ok::<Option<Seq<char>>, ClientErrorView>(None)),
        received(started(base_url, credential), event) == started(base_url, credential),
{
}

/// A password is exchanged anew each time. How an exchange starts depends on
/// the base address and the credential alone, not on any exchange before
/// it, and with a password it always starts with the login request.
pub proof fn lemma_password_always_requests(
    base_url: Seq<char>,
    username: Seq<char>,
    password: Seq<char>,
)
    ensures
        started(base_url, Credential::Password(username, password)) == ExchangeView::Requesting(
            login_request(base_url, username, password),
        ),
        !has_ended(started(base_url, Credential::Password(username, password))),
        outcome_of(started(base_url, Credential::Password(username, password))) is None,
{
}

/// One event ends an exchange: after it the exchange has an outcome, in a
/// session or in an error, and an exchange that had ended before is as it
/// was.
pub proof fn lemma_event_ends_exchange(state: ExchangeView, event: TransportEventView)
    ensures
        has_ended(received(state, event)),
        outcome_of(received(state, event)) is Some,
        has_ended(state) ==> received(state, event) == state,
        !has_ended(state) ==> !(received(state, event) is NotNeeded),
{
}

/// Looks for the first cookie of the given name and returns its value.
pub fn find_cookie(cookies: &Vec<Cookie>, name: &str) -> (found: Option<String>)
    ensures
        text_view(found) == first_cookie(cookie_views(cookies@), name@),
{
    let wanted = name.to_owned();
    let ghost all = cookie_views(cookies@);
    let mut i: usize = 0;
    assert(all.skip(0) =~= all);
    while i < cookies.len()
        invariant
            i <= cookies.len(),
            all == cookie_views(cookies@),
            wanted@ == name@,
            first_cookie(all, name@) == first_cookie(all.skip(i as int), name@),
        decreases cookies.len() - i,
    {
        let ghost rest = all.skip(i as int);
        assert(rest[0] == cookies@[i as int]@);
        if cookies[i].name == wanted {
            return Some(cookies[i].value.clone());
        }
        assert(rest.drop_first() == all.skip(i + 1));
        i += 1;
    }
    None
}

impl Exchange {
    /// Starts an exchange for a credential against the server at `base_url`.
    pub fn begin(base_url: &str, auth: &AuthInfo) -> (state: Exchange)
        ensures
            state@ == started(base_url@, auth@),
    {
        match auth {
            AuthInfo::Password(username, password) => Exchange::Requesting(
                LoginRequest {
                    url: login_url(base_url),
                    body: login_body(username.as_str(), password.as_str()),
                },
            ),
            AuthInfo::Token(_) => Exchange::NotNeeded,
            AuthInfo::SessionCookie(_) => Exchange::NotNeeded,
        }
    }

    /// The request that is to be sent, while there is one.
    pub fn request(&self) -> (request: Option<&LoginRequest>)
        ensures
            match request {
                Some(request) => self@ == ExchangeView::Requesting(request@),
                None => has_ended(self@),
            },
    {
        match self {
            Exchange::Requesting(request) => Some(request),
            _ => None,
        }
    }

    /// Whether the exchange has ended.
    pub fn is_ended(&self) -> (ended: bool)
        ensures
            ended == has_ended(self@),
    {
        match self {
            Exchange::Requesting(_) => false,
            _ => true,
        }
    }

    /// Takes what came of the login request and moves to the state that
    /// follows. An exchange that has ended takes no notice of the event.
    pub fn receive(self, event: TransportEvent) -> (next: Exchange)
        ensures
            next@ == received(self@, event@),
    {
        match self {
            Exchange::Requesting(_) => settle(event),
            Exchange::NotNeeded => Exchange::NotNeeded,
            Exchange::Obtained(session_id) => Exchange::Obtained(session_id),
            Exchange::Failed(error) => Exchange::Failed(error),
        }
    }

    /// What the exchange hands to its caller once it has ended; `None`
    /// while the request is in flight.
    pub fn outcome(self) -> (outcome: Option<Session>)
        ensures
            match outcome {
                Some(session) => outcome_of(self@) == Some(session_view(session)),
                None => outcome_of(self@) is None,
            },
    {
        match self {
            Exchange::NotNeeded => Some(Ok(None)),
            Exchange::Requesting(_) => None,
            Exchange::Obtained(session_id) => Some(Ok(Some(session_id))),
            Exchange::Failed(error) => Some(Err(error)),
        }
    }
}

/// Settles the login request on what came of it.
pub fn settle(event: TransportEvent) -> (state: Exchange)
    ensures
        state@ == settled(event@),
{
    match event {
        TransportEvent::Response { status, cookies, body } => {
            if 200 <= status && status <= 299 {
                match find_cookie(&cookies, "semaphore") {
                    Some(session_id) => Exchange::Obtained(session_id),
                    None => Exchange::Failed(ClientError::SessionCookieMissing),
                }
            } else {
                Exchange::Failed(ClientError::AuthenticationRejected(status, body))
            }
        },
        TransportEvent::Failure(cause) => Exchange::Failed(ClientError::TransportError(cause)),
        TransportEvent::Cancelled => Exchange::Failed(ClientError::Cancelled),
    }
}

/// Runs one exchange to its end, with `transport` sending the login request.
///
/// A token or a session cookie needs no exchange: `transport` is not called,
/// and may well be a function that cannot be called at all, and the result is
/// no session. A password is exchanged by one call of `transport` on the
/// login request, and the result is what that call's event settles to.
pub fn exchange_session<F: FnOnce(&LoginRequest) -> TransportEvent>(
    base_url: &str,
    auth: &AuthInfo,
    transport: F,
) -> (session: Session)
    requires
        forall|request: &LoginRequest|
            started(base_url@, auth@) == ExchangeView::Requesting(request@) ==> call_requires(
                transport,
                (request,),
            ),
    ensures
        !(auth@ is Password) ==> session_view(session) == Ok::<Option<Seq<char>>, ClientErrorView>(None),
        auth@ is Password ==> exists|request: &LoginRequest, event: TransportEvent|
            {
                &&& started(base_url@, auth@) == ExchangeView::Requesting(request@)
                &&& call_ensures(transport, (request,), event)
                &&& outcome_of(settled(event@)) == Some(session_view(session))
            },
{
    let state = Exchange::begin(base_url, auth);
    let ended = match state.request() {
        Some(request) => {
            let event = transport(request);
            let ghost got = event;
            let ended = state.receive(event);
            assert(call_ensures(transport, (request,), got));
            ended
        },
        None => state,
    };
    match ended.outcome() {
        Some(session) => session,
        None => unreached(),
    }
}

} // verus!
