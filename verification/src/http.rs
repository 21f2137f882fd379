//! The requests the library asks to have sent, and the protocol in which
//! it is told what came back.

use vstd::prelude::*;
use crate::json::Json;

verus! {

/// What goes in the body of a request.
pub enum Body {
    /// No body.
    Empty,
    /// A JSON document.
    Json(Json),
    /// Form fields, `application/x-www-form-urlencoded`.
    Form(Vec<(String, String)>),
}

/// A `POST` request: its URL, its headers in order, and its body.
pub struct HttpRequest {
    pub url: String,
    pub headers: Vec<(String, String)>,
    pub body: Body,
}

/// The headers read as characters.
pub open spec fn pairs_view(pairs: Seq<(String, String)>) -> Seq<(Seq<char>, Seq<char>)> {
    pairs.map_values(|e: (String, String)| (e.0@, e.1@))
}

/// A status in the range `200..=299`, as `StatusCode::is_success` has it.
pub open spec fn success(status: u16) -> bool {
    200 <= status <= 299
}

/// Tests a status for success.
pub fn is_success(status: u16) -> (b: bool)
    ensures
        b == success(status),
{
    200 <= status && status <= 299
}

/// A name and a value, as owned strings.
pub fn pair(name: &str, value: &str) -> (r: (String, String))
    ensures
        r.0@ == name@,
        r.1@ == value@,
{
    (String::from_str(name), String::from_str(value))
}

/// What the caller reports back after doing what a step asked.
pub enum Reply {
    /// The request was sent; the status of its response.
    Status(u16),
    /// The body of the last response, read as JSON.
    Json(Json),
    /// The body of the last response, read as text.
    Text(String),
}

/// Why a lookup ended without an address.
#[derive(PartialEq, Eq, Debug)]
pub enum LookupError {
    /// The service answered with a status outside `200..=299`.
    Status(u16),
    /// The service answered, and its answer holds no address.
    NoEmail,
    /// The token request was refused; the body of the refusal.
    TokenRefused(String),
    /// The token answer holds no `access_token`.
    NoAccessToken,
    /// The reply does not fit the step that was asked for.
    UnexpectedReply,
}

/// What a lookup asks its caller to do next.
pub enum Step {
    /// Send this request and reply with its status.
    Send(HttpRequest),
    /// Read the body of the last response as JSON and reply with it.
    ReadJson,
    /// Read the body of the last response as text and reply with it.
    ReadText,
    /// The lookup is over: the address found (empty where none was), or why not.
    Finish(Result<String, LookupError>),
}

/// A body read as characters.
pub enum BodyView {
    Empty,
    Json(Json),
    Form(Seq<(Seq<char>, Seq<char>)>),
}

/// A request read as characters.
pub struct RequestView {
    pub url: Seq<char>,
    pub headers: Seq<(Seq<char>, Seq<char>)>,
    pub body: BodyView,
}

/// A reason read as characters.
pub enum ErrorView {
    Status(u16),
    NoEmail,
    TokenRefused(Seq<char>),
    NoAccessToken,
    UnexpectedReply,
}

/// A step read as characters.
pub enum StepView {
    Send(RequestView),
    ReadJson,
    ReadText,
    Finish(Result<Seq<char>, ErrorView>),
}

/// A reply read as characters.
pub enum ReplyView {
    Status(u16),
    Json(Json),
    Text(Seq<char>),
}

impl View for Body {
    type V = BodyView;

    open spec fn view(&self) -> BodyView {
        match self {
            Body::Empty => BodyView::Empty,
            Body::Json(j) => BodyView::Json(*j),
            Body::Form(fields) => BodyView::Form(pairs_view(fields@)),
        }
    }
}

impl View for HttpRequest {
    type V = RequestView;

    open spec fn view(&self) -> RequestView {
        RequestView { url: self.url@, headers: pairs_view(self.headers@), body: self.body@ }
    }
}

impl View for LookupError {
    type V = ErrorView;

    open spec fn view(&self) -> ErrorView {
        match self {
            LookupError::Status(s) => ErrorView::Status(*s),
            LookupError::NoEmail => ErrorView::NoEmail,
            LookupError::TokenRefused(t) => ErrorView::TokenRefused(t@),
            LookupError::NoAccessToken => ErrorView::NoAccessToken,
            LookupError::UnexpectedReply => ErrorView::UnexpectedReply,
        }
    }
}

/// An outcome read as characters.
pub open spec fn outcome_view(r: Result<String, LookupError>) -> Result<Seq<char>, ErrorView> {
    match r {
        Ok(s) => Ok(s@),
        Err(e) => Err(e@),
    }
}

impl View for Step {
    type V = StepView;

    open spec fn view(&self) -> StepView {
        match self {
            Step::Send(req) => StepView::Send(req@),
            Step::ReadJson => StepView::ReadJson,
            Step::ReadText => StepView::ReadText,
            Step::Finish(r) => StepView::Finish(outcome_view(*r)),
        }
    }
}

impl View for Reply {
    type V = ReplyView;

    open spec fn view(&self) -> ReplyView {
        match self {
            Reply::Status(s) => ReplyView::Status(*s),
            Reply::Json(j) => ReplyView::Json(*j),
            Reply::Text(t) => ReplyView::Text(t@),
        }
    }
}

} // verus!
