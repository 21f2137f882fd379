//! Snov.io's lookup: an access token first, then the profile added for
//! search, then its addresses asked for.

use vstd::prelude::*;
use crate::http::{Body, BodyView, ErrorView, HttpRequest, LookupError, Reply, ReplyView, RequestView, Step, StepView, is_success, pair, pairs_view, success};
use crate::json::{Json, key, member, nth, text_or_empty};

verus! {

/// Where a Snov.io lookup stands.
pub enum SnovPhase {
    /// The token request is out; its status is awaited.
    TokenStatus,
    /// The token answer's JSON is awaited.
    TokenJson,
    /// The token refusal's text is awaited.
    TokenText,
    /// The add-for-search request is out; its status is awaited.
    AddStatus,
    /// The add-for-search answer's JSON is awaited.
    AddJson,
    /// The add-for-search refusal's text is awaited.
    AddText,
    /// The get-emails request is out; its status is awaited.
    GetStatus,
    /// The get-emails answer's JSON is awaited.
    GetJson,
    /// The get-emails refusal's text is awaited.
    GetText,
    /// The lookup has finished.
    Done,
}

/// A Snov.io lookup in progress: the profile and, once granted, the token.
pub struct SnovLookup {
    pub phase: SnovPhase,
    pub linkedin_url: String,
    pub access_token: String,
}

/// A Snov.io lookup read as characters.
pub struct SnovView {
    pub phase: SnovPhase,
    pub linkedin_url: Seq<char>,
    pub access_token: Seq<char>,
}

impl View for SnovLookup {
    type V = SnovView;

    open spec fn view(&self) -> SnovView {
        SnovView { phase: self.phase, linkedin_url: self.linkedin_url@, access_token: self.access_token@ }
    }
}

/// The OAuth request for a token by client credentials.
pub open spec fn token_request(client_id: Seq<char>, client_secret: Seq<char>) -> RequestView {
    RequestView {
        url: "https://api.snov.io/v1/oauth/access_token"@,
        headers: Seq::empty(),
        body: BodyView::Form(
            seq![
                ("grant_type"@, "client_credentials"@),
                ("client_id"@, client_id),
                ("client_secret"@, client_secret),
            ],
        ),
    }
}

/// A request to `endpoint` with the token and the profile as form fields.
pub open spec fn profile_request(endpoint: Seq<char>, access_token: Seq<char>, linkedin_url: Seq<char>) -> RequestView {
    RequestView {
        url: endpoint,
        headers: Seq::empty(),
        body: BodyView::Form(seq![("access_token"@, access_token), ("url"@, linkedin_url)]),
    }
}

/// The add-for-search endpoint.
pub open spec fn add_url() -> Seq<char> {
    "https://api.snov.io/v1/add-url-for-search"@
}

/// The get-emails endpoint.
pub open spec fn get_url() -> Seq<char> {
    "https://api.snov.io/v1/get-emails-from-url"@
}

/// `data[0].emails[0].email` of an answer, or nothing.
pub open spec fn snov_email(body: Json) -> Seq<char> {
    body.field("data"@).at(0).field("emails"@).at(0).field("email"@).text_or_empty()
}

/// The lookup in another phase.
pub open spec fn in_phase(v: SnovView, phase: SnovPhase) -> SnovView {
    SnovView { phase, ..v }
}

/// The next state and step of a Snov.io lookup given a reply.
pub open spec fn snov_next(v: SnovView, reply: ReplyView) -> (SnovView, StepView) {
    let unexpected = (in_phase(v, SnovPhase::Done), StepView::Finish(Err(ErrorView::UnexpectedReply)));
    let empty = (in_phase(v, SnovPhase::Done), StepView::Finish(Ok(Seq::empty())));
    match v.phase {
        SnovPhase::TokenStatus => match reply {
            ReplyView::Status(s) => if success(s) {
                (in_phase(v, SnovPhase::TokenJson), StepView::ReadJson)
            } else {
                (in_phase(v, SnovPhase::TokenText), StepView::ReadText)
            },
            _ => unexpected,
        },
        SnovPhase::TokenText => match reply {
            ReplyView::Text(t) => (in_phase(v, SnovPhase::Done), StepView::Finish(Err(ErrorView::TokenRefused(t)))),
            _ => unexpected,
        },
        SnovPhase::TokenJson => match reply {
            ReplyView::Json(body) => match body.field("access_token"@).text() {
                Some(token) => (
                    SnovView { phase: SnovPhase::AddStatus, linkedin_url: v.linkedin_url, access_token: token },
                    StepView::Send(profile_request(add_url(), token, v.linkedin_url)),
                ),
                None => (in_phase(v, SnovPhase::Done), StepView::Finish(Err(ErrorView::NoAccessToken))),
            },
            _ => unexpected,
        },
        SnovPhase::AddStatus => match reply {
            ReplyView::Status(s) => if success(s) {
                (in_phase(v, SnovPhase::AddJson), StepView::ReadJson)
            } else {
                (in_phase(v, SnovPhase::AddText), StepView::ReadText)
            },
            _ => unexpected,
        },
        SnovPhase::AddText => match reply {
            ReplyView::Text(_) => empty,
            _ => unexpected,
        },
        SnovPhase::AddJson => match reply {
            ReplyView::Json(_) => (
                in_phase(v, SnovPhase::GetStatus),
                StepView::Send(profile_request(get_url(), v.access_token, v.linkedin_url)),
            ),
            _ => unexpected,
        },
        SnovPhase::GetStatus => match reply {
            ReplyView::Status(s) => if success(s) {
                (in_phase(v, SnovPhase::GetJson), StepView::ReadJson)
            } else {
                (in_phase(v, SnovPhase::GetText), StepView::ReadText)
            },
            _ => unexpected,
        },
        SnovPhase::GetText => match reply {
            ReplyView::Text(_) => empty,
            _ => unexpected,
        },
        SnovPhase::GetJson => match reply {
            ReplyView::Json(body) => (in_phase(v, SnovPhase::Done), StepView::Finish(Ok(snov_email(body)))),
            _ => unexpected,
        },
        SnovPhase::Done => unexpected,
    }
}

/// How many replies a Snov.io lookup may still take.
pub open spec fn snov_rank(v: SnovView) -> nat {
    match v.phase {
        SnovPhase::TokenStatus => 6,
        SnovPhase::TokenJson => 5,
        SnovPhase::TokenText => 5,
        SnovPhase::AddStatus => 4,
        SnovPhase::AddJson => 3,
        SnovPhase::AddText => 3,
        SnovPhase::GetStatus => 2,
        SnovPhase::GetJson => 1,
        SnovPhase::GetText => 1,
        SnovPhase::Done => 0,
    }
}

fn form_request(endpoint: &str, access_token: &String, linkedin_url: &String) -> (r: HttpRequest)
    ensures
        r@ == profile_request(endpoint@, access_token@, linkedin_url@),
{
    let mut form: Vec<(String, String)> = Vec::new();
    form.push((key("access_token"), access_token.clone()));
    form.push((key("url"), linkedin_url.clone()));
    let r = HttpRequest { url: String::from_str(endpoint), headers: Vec::new(), body: Body::Form(form) };
    assert(pairs_view(r.headers@) =~= Seq::empty());
    assert(r@.body == BodyView::Form(seq![("access_token"@, access_token@), ("url"@, linkedin_url@)])) by {
        assert(pairs_view(form@) =~= seq![("access_token"@, access_token@), ("url"@, linkedin_url@)]);
    }
    r
}

/// Reads `data[0].emails[0].email` of an answer; empty where it holds none.
pub fn email_of(body: &Json) -> (r: String)
    ensures
        r@ == snov_email(*body),
{
    let data = member(Some(body), &key("data"));
    let person = nth(data, 0);
    let emails = member(person, &key("emails"));
    let first = nth(emails, 0);
    text_or_empty(member(first, &key("email")))
}

/// Starts the Snov.io lookup of a profile's address with these client
/// credentials. It ends with the first address found (empty where the
/// answer holds none or a request after the token is refused), or with an
/// error where the token is refused or not given.
pub fn get_email_from_linkedin(linkedin_url: &str, client_id: &str, client_secret: &str) -> (r: (SnovLookup, Step))
    ensures
        r.0@ == (SnovView { phase: SnovPhase::TokenStatus, linkedin_url: linkedin_url@, access_token: Seq::empty() }),
        r.1@ == StepView::Send(token_request(client_id@, client_secret@)),
{
    let mut form: Vec<(String, String)> = Vec::new();
    form.push(pair("grant_type", "client_credentials"));
    form.push(pair("client_id", client_id));
    form.push(pair("client_secret", client_secret));
    let request = HttpRequest {
        url: String::from_str("https://api.snov.io/v1/oauth/access_token"),
        headers: Vec::new(),
        body: Body::Form(form),
    };
    assert(request@ == token_request(client_id@, client_secret@)) by {
        assert(pairs_view(request.headers@) =~= Seq::empty());
        assert(pairs_view(form@) =~= seq![
            ("grant_type"@, "client_credentials"@),
            ("client_id"@, client_id@),
            ("client_secret"@, client_secret@),
        ]);
    }
    let lookup = SnovLookup {
        phase: SnovPhase::TokenStatus,
        linkedin_url: String::from_str(linkedin_url),
        access_token: String::new(),
    };
    (lookup, Step::Send(request))
}

impl SnovLookup {
    fn into_phase(self, phase: SnovPhase) -> (r: SnovLookup)
        ensures
            r@ == in_phase(self@, phase),
    {
        SnovLookup { phase, ..self }
    }

    /// Takes the reply to the last step and answers the next one.
    pub fn resume(self, reply: Reply) -> (r: (SnovLookup, Step))
        ensures
            (r.0@, r.1@) == snov_next(self@, reply@),
    {
        match self.phase {
            SnovPhase::TokenStatus => match reply {
                Reply::Status(s) => if is_success(s) {
                    (self.into_phase(SnovPhase::TokenJson), Step::ReadJson)
                } else {
                    (self.into_phase(SnovPhase::TokenText), Step::ReadText)
                },
                _ => (self.into_phase(SnovPhase::Done), Step::Finish(Err(LookupError::UnexpectedReply))),
            },
            SnovPhase::TokenText => match reply {
                Reply::Text(t) => (
                    self.into_phase(SnovPhase::Done),
                    Step::Finish(Err(LookupError::TokenRefused(t))),
                ),
                _ => (self.into_phase(SnovPhase::Done), Step::Finish(Err(LookupError::UnexpectedReply))),
            },
            SnovPhase::TokenJson => match reply {
                Reply::Json(body) => {
                    let token = member(Some(&body), &key("access_token"));
                    match token {
                        Some(t) => match t.as_str() {
                            Some(tok) => {
                                let request = form_request(
                                    "https://api.snov.io/v1/add-url-for-search",
                                    tok,
                                    &self.linkedin_url,
                                );
                                let next = SnovLookup {
                                    phase: SnovPhase::AddStatus,
                                    linkedin_url: self.linkedin_url,
                                    access_token: tok.clone(),
                                };
                                (next, Step::Send(request))
                            },
                            None => (self.into_phase(SnovPhase::Done), Step::Finish(Err(LookupError::NoAccessToken))),
                        },
                        None => (self.into_phase(SnovPhase::Done), Step::Finish(Err(LookupError::NoAccessToken))),
                    }
                },
                _ => (self.into_phase(SnovPhase::Done), Step::Finish(Err(LookupError::UnexpectedReply))),
            },
            SnovPhase::AddStatus => match reply {
                Reply::Status(s) => if is_success(s) {
                    (self.into_phase(SnovPhase::AddJson), Step::ReadJson)
                } else {
                    (self.into_phase(SnovPhase::AddText), Step::ReadText)
                },
                _ => (self.into_phase(SnovPhase::Done), Step::Finish(Err(LookupError::UnexpectedReply))),
            },
            SnovPhase::AddText => match reply {
                Reply::Text(_) => (self.into_phase(SnovPhase::Done), Step::Finish(Ok(String::new()))),
                _ => (self.into_phase(SnovPhase::Done), Step::Finish(Err(LookupError::UnexpectedReply))),
            },
            SnovPhase::AddJson => match reply {
                Reply::Json(_) => {
                    let request = form_request(
                        "https://api.snov.io/v1/get-emails-from-url",
                        &self.access_token,
                        &self.linkedin_url,
                    );
                    (self.into_phase(SnovPhase::GetStatus), Step::Send(request))
                },
                _ => (self.into_phase(SnovPhase::Done), Step::Finish(Err(LookupError::UnexpectedReply))),
            },
            SnovPhase::GetStatus => match reply {
                Reply::Status(s) => if is_success(s) {
                    (self.into_phase(SnovPhase::GetJson), Step::ReadJson)
                } else {
                    (self.into_phase(SnovPhase::GetText), Step::ReadText)
                },
                _ => (self.into_phase(SnovPhase::Done), Step::Finish(Err(LookupError::UnexpectedReply))),
            },
            SnovPhase::GetText => match reply {
                Reply::Text(_) => (self.into_phase(SnovPhase::Done), Step::Finish(Ok(String::new()))),
                _ => (self.into_phase(SnovPhase::Done), Step::Finish(Err(LookupError::UnexpectedReply))),
            },
            SnovPhase::GetJson => match reply {
                Reply::Json(body) => {
                    let email = email_of(&body);
                    (self.into_phase(SnovPhase::Done), Step::Finish(Ok(email)))
                },
                _ => (self.into_phase(SnovPhase::Done), Step::Finish(Err(LookupError::UnexpectedReply))),
            },
            SnovPhase::Done => (self.into_phase(SnovPhase::Done), Step::Finish(Err(LookupError::UnexpectedReply))),
        }
    }
}

/// Every reply either ends a Snov.io lookup or brings it closer to its end.
pub proof fn lemma_snov_progress(v: SnovView, reply: ReplyView)
    ensures
        snov_next(v, reply).1 is Finish || snov_rank(snov_next(v, reply).0) < snov_rank(v),
{
}

/// A finished Snov.io lookup stays finished and answers any further reply as unexpected.
pub proof fn lemma_snov_done_stays(v: SnovView, reply: ReplyView)
    requires
        v.phase is Done,
    ensures
        snov_next(v, reply) == (v, StepView::Finish(Err(ErrorView::UnexpectedReply))),
{
}

/// With every request answered, the token granted goes with the profile
/// into both later requests, and the lookup ends with the first address of
/// the last answer.
pub proof fn lemma_snov_answered(
    linkedin_url: Seq<char>,
    s1: u16,
    token_body: Json,
    s2: u16,
    added_body: Json,
    s3: u16,
    body: Json,
)
    requires
        success(s1),
        success(s2),
        success(s3),
        token_body.field("access_token"@).text() is Some,
    ensures
        ({
            let token = token_body.field("access_token"@).text()->0;
            let v0 = SnovView { phase: SnovPhase::TokenStatus, linkedin_url, access_token: Seq::empty() };
            let (v1, k1) = snov_next(v0, ReplyView::Status(s1));
            let (v2, k2) = snov_next(v1, ReplyView::Json(token_body));
            let (v3, k3) = snov_next(v2, ReplyView::Status(s2));
            let (v4, k4) = snov_next(v3, ReplyView::Json(added_body));
            let (v5, k5) = snov_next(v4, ReplyView::Status(s3));
            let (v6, k6) = snov_next(v5, ReplyView::Json(body));
            &&& k1 == StepView::ReadJson
            &&& k2 == StepView::Send(profile_request(add_url(), token, linkedin_url))
            &&& k3 == StepView::ReadJson
            &&& k4 == StepView::Send(profile_request(get_url(), token, linkedin_url))
            &&& k5 == StepView::ReadJson
            &&& k6 == StepView::Finish(Ok(snov_email(body)))
            &&& v6.phase is Done
        }),
{
}

/// A refused token request ends the lookup with the refusal's text.
pub proof fn lemma_snov_token_refused(linkedin_url: Seq<char>, status: u16, text: Seq<char>)
    requires
        !success(status),
    ensures
        ({
            let v0 = SnovView { phase: SnovPhase::TokenStatus, linkedin_url, access_token: Seq::empty() };
            let (v1, k1) = snov_next(v0, ReplyView::Status(status));
            &&& k1 == StepView::ReadText
            &&& snov_next(v1, ReplyView::Text(text)).1 == StepView::Finish(Err(ErrorView::TokenRefused(text)))
        }),
{
}

/// A refused get-emails request ends the lookup with the empty address,
/// whatever its status and the text of its refusal.
pub proof fn lemma_snov_refused_get_is_empty(v: SnovView, status: u16, text: Seq<char>)
    requires
        v.phase is GetStatus,
        !success(status),
    ensures
        ({
            let (v1, k1) = snov_next(v, ReplyView::Status(status));
            &&& k1 == StepView::ReadText
            &&& snov_next(v1, ReplyView::Text(text)).1 == StepView::Finish(Ok::<Seq<char>, ErrorView>(Seq::empty()))
        }),
{
}

/// A refused add-for-search request ends the lookup with the empty address,
/// whatever its status and the text of its refusal.
pub proof fn lemma_snov_refused_add_is_empty(v: SnovView, status: u16, text: Seq<char>)
    requires
        v.phase is AddStatus,
        !success(status),
    ensures
        ({
            let (v1, k1) = snov_next(v, ReplyView::Status(status));
            &&& k1 == StepView::ReadText
            &&& snov_next(v1, ReplyView::Text(text)).1 == StepView::Finish(Ok::<Seq<char>, ErrorView>(Seq::empty()))
        }),
{
}

/// A Snov.io lookup only ever ends with a non-empty address on reading a
/// get-emails answer, and that address is the answer's
/// `data[0].emails[0].email` string.
pub proof fn lemma_snov_address_source(v: SnovView, reply: ReplyView)
    ensures
        snov_next(v, reply).1 matches StepView::Finish(Ok(e)) ==> (e.len() > 0 ==> (v.phase is GetJson && (
        reply matches ReplyView::Json(body) && body.field("data"@).at(0).field("emails"@).at(0).field(
            "email"@,
        ).text() == Some(e)))),
{
}

/// A get-emails answer whose `data[0].emails[0].email` is a string ends the
/// lookup with exactly that string; one without it, with the empty address.
pub proof fn lemma_snov_reads_first_email(v: SnovView, body: Json)
    requires
        v.phase is GetJson,
    ensures
        body.field("data"@).at(0).field("emails"@).at(0).field("email"@).text() matches Some(e)
            ==> snov_next(v, ReplyView::Json(body)).1 == StepView::Finish(Ok::<Seq<char>, ErrorView>(e)),
        body.field("data"@).at(0).field("emails"@).at(0).field("email"@).text() is None
            ==> snov_next(v, ReplyView::Json(body)).1 == StepView::Finish(Ok::<Seq<char>, ErrorView>(Seq::empty())),
{
}

/// The token granted is the `access_token` string of the token answer, and
/// it goes with the profile into the add-for-search request.
pub proof fn lemma_snov_token_used(v: SnovView, body: Json, token: String)
    requires
        v.phase is TokenJson,
        body.lookup("access_token"@) == Some(Json::Str(token)),
    ensures
        snov_next(v, ReplyView::Json(body)).0.access_token == token@,
        snov_next(v, ReplyView::Json(body)).1 == StepView::Send(RequestView {
            url: "https://api.snov.io/v1/add-url-for-search"@,
            headers: Seq::empty(),
            body: BodyView::Form(seq![("access_token"@, token@), ("url"@, v.linkedin_url)]),
        }),
{
}

} // verus!
