//! Uniform request description and status-driven classification of replies.

use vstd::prelude::*;

verus! {

/// Name under which this client registers its durable key.
pub const APP_NAME: &'static str = "JellyRoller";

/// Authorization header of the password login, which carries no credential.
pub const LOGIN_AUTHORIZATION: &'static str = "MediaBrowser Client=\"JellyRoller\", Device=\"jellyroller\", DeviceId=\"1\", Version=\"0.0.1\"";

/// What went wrong; every variant ends the run.
#[derive(Clone, Copy, Debug, PartialEq, Eq, Structural)]
pub enum CliError {
    /// The login was rejected.
    Authentication,
    /// A call with a credential came back 401.
    Authorization,
    /// The server could not be reached.
    Transport,
    /// Any other status that is not a success.
    Protocol(u16),
    /// An entry that a creation step guarantees is still missing.
    ContractViolation,
    /// A successful reply whose body could not be read.
    MalformedResponse,
}

/// A reply, classified by its status code.
pub enum Outcome {
    Success(String),
    Unauthorized,
    Other(u16),
}

pub open spec fn is_success_status(status: u16) -> bool {
    200 <= status <= 299
}

/// The class of a reply with `status` and `body`.
pub open spec fn outcome_of(status: u16, body: Seq<char>) -> OutcomeView {
    if is_success_status(status) {
        OutcomeView::Success(body)
    } else if status == 401 {
        OutcomeView::Unauthorized
    } else {
        OutcomeView::Other(status)
    }
}

pub ghost enum OutcomeView {
    Success(Seq<char>),
    Unauthorized,
    Other(u16),
}

impl View for Outcome {
    type V = OutcomeView;

    open spec fn view(&self) -> OutcomeView {
        match self {
            Outcome::Success(b) => OutcomeView::Success(b@),
            Outcome::Unauthorized => OutcomeView::Unauthorized,
            Outcome::Other(s) => OutcomeView::Other(*s),
        }
    }
}

/// Classifies a reply: 200 to 299 is a success carrying the body, 401 is
/// unauthorized, and anything else keeps its status code.
pub fn classify(status: u16, body: String) -> (r: Outcome)
    ensures
        r@ == outcome_of(status, body@),
{
    if 200 <= status && status <= 299 {
        Outcome::Success(body)
    } else if status == 401 {
        Outcome::Unauthorized
    } else {
        Outcome::Other(status)
    }
}

/// A 401 is unauthorized and any status outside 200 to 299 other than 401
/// keeps its code, whatever the body and whichever command made the call.
pub proof fn lemma_classification(status: u16, body: Seq<char>)
    ensures
        status == 401 ==> outcome_of(status, body) == OutcomeView::Unauthorized,
        !is_success_status(status) && status != 401 ==> outcome_of(status, body) == OutcomeView::Other(status),
        is_success_status(status) ==> outcome_of(status, body) == OutcomeView::Success(body),
{
}

/// The error a failed call with a credential ends in.
pub open spec fn call_error(status: u16) -> CliError {
    if status == 401 {
        CliError::Authorization
    } else {
        CliError::Protocol(status)
    }
}

/// The decoded value of a reply, or the error it ends in: a success needs a
/// body that could be decoded, 401 is an authorization failure and any other
/// status a protocol error.
pub fn accept<T>(status: u16, decoded: Option<T>) -> (r: Result<T, CliError>)
    ensures
        is_success_status(status) && decoded is Some ==> r == Ok::<T, CliError>(decoded->0),
        is_success_status(status) && decoded is None ==> r == Err::<T, CliError>(CliError::MalformedResponse),
        !is_success_status(status) ==> r == Err::<T, CliError>(call_error(status)),
{
    if 200 <= status && status <= 299 {
        match decoded {
            Some(v) => Ok(v),
            None => Err(CliError::MalformedResponse),
        }
    } else if status == 401 {
        Err(CliError::Authorization)
    } else {
        Err(CliError::Protocol(status))
    }
}

#[derive(Clone, Copy, Debug, PartialEq, Eq, Structural)]
pub enum Method {
    Get,
    Post,
    Delete,
}

/// How the body of a request is to be labelled.
#[derive(Clone, Copy, Debug, PartialEq, Eq, Structural)]
pub enum ContentType {
    NoBody,
    Json,
    Png,
}

/// One HTTP call, ready to be sent.
pub struct Request {
    pub method: Method,
    pub url: String,
    pub query: Vec<(String, String)>,
    pub authorization: String,
    pub content_type: ContentType,
    pub body: String,
}

pub ghost struct RequestView {
    pub method: Method,
    pub url: Seq<char>,
    pub query: Seq<(Seq<char>, Seq<char>)>,
    pub authorization: Seq<char>,
    pub content_type: ContentType,
    pub body: Seq<char>,
}

pub open spec fn pairs_view(p: Seq<(String, String)>) -> Seq<(Seq<char>, Seq<char>)> {
    p.map_values(|x: (String, String)| (x.0@, x.1@))
}

impl View for Request {
    type V = RequestView;

    open spec fn view(&self) -> RequestView {
        RequestView {
            method: self.method,
            url: self.url@,
            query: pairs_view(self.query@),
            authorization: self.authorization@,
            content_type: self.content_type,
            body: self.body@,
        }
    }
}

/// The authorization header that carries `key`.
pub open spec fn token_header(key: Seq<char>) -> Seq<char> {
    "MediaBrowser Token=\""@ + key + "\""@
}

/// `MediaBrowser Token="<key>"`.
pub fn auth_header(key: &str) -> (r: String)
    ensures
        r@ == token_header(key@),
{
    let mut h = String::from_str("MediaBrowser Token=\"");
    h.append(key);
    h.append("\"");
    h
}

/// A call to `url` with the credential `key`, no query and no body.
pub open spec fn plain_call(method: Method, url: Seq<char>, key: Seq<char>) -> RequestView {
    RequestView {
        method,
        url,
        query: Seq::empty(),
        authorization: token_header(key),
        content_type: ContentType::NoBody,
        body: Seq::empty(),
    }
}

impl Request {
    /// A GET of `url` with `query`, authorized by `key`.
    pub fn get(url: String, query: Vec<(String, String)>, key: &str) -> (r: Request)
        ensures
            r@ == (RequestView { query: pairs_view(query@), ..plain_call(Method::Get, url@, key@) }),
    {
        Request {
            method: Method::Get,
            url,
            query,
            authorization: auth_header(key),
            content_type: ContentType::NoBody,
            body: String::new(),
        }
    }

    /// A POST of `body`, labelled `content_type`, to `url` with `query`,
    /// authorized by `key`.
    pub fn post(url: String, query: Vec<(String, String)>, body: String, content_type: ContentType, key: &str) -> (r: Request)
        ensures
            r@ == (RequestView {
                query: pairs_view(query@),
                content_type,
                body: body@,
                ..plain_call(Method::Post, url@, key@)
            }),
    {
        Request {
            method: Method::Post,
            url,
            query,
            authorization: auth_header(key),
            content_type,
            body,
        }
    }

    /// A DELETE of `url` with `query`, authorized by `key`.
    pub fn delete(url: String, query: Vec<(String, String)>, key: &str) -> (r: Request)
        ensures
            r@ == (RequestView { query: pairs_view(query@), ..plain_call(Method::Delete, url@, key@) }),
    {
        Request {
            method: Method::Delete,
            url,
            query,
            authorization: auth_header(key),
            content_type: ContentType::NoBody,
            body: String::new(),
        }
    }
}

} // verus!
