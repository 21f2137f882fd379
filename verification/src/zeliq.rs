//! Zeliq's contact enrichment: the request and the reading of its answer.

use vstd::prelude::*;
use crate::http::{Body, BodyView, ErrorView, HttpRequest, LookupError, Reply, ReplyView, RequestView, Step, StepView, is_success, outcome_view, pair, pairs_view, success};
use crate::json::{Json, key, member, text_or_empty};
use crate::lookup::{EmailLookup, Service, started};

verus! {

/// The enrichment endpoint.
pub open spec fn enrich_url() -> Seq<char> {
    "https://api.zeliq.com/api/contact/enrich/email"@
}

/// The headers of an enrichment request.
pub open spec fn enrich_headers(api_key: Seq<char>) -> Seq<(Seq<char>, Seq<char>)> {
    seq![
        ("accept"@, "application/json"@),
        ("content-type"@, "application/json"@),
        ("x-api-key"@, api_key),
    ]
}

/// The body of an enrichment request: `{"linkedin_url": <profile>}`.
pub open spec fn is_enrich_body(body: Json, linkedin_url: Seq<char>) -> bool {
    &&& body matches Json::Object(fields)
    &&& fields@.len() == 1
    &&& fields@[0].0@ == "linkedin_url"@
    &&& fields@[0].1.text() == Some(linkedin_url)
}

/// The enrichment request for a profile.
pub open spec fn is_enrich_request(r: RequestView, linkedin_url: Seq<char>, api_key: Seq<char>) -> bool {
    &&& r.url == enrich_url()
    &&& r.headers == enrich_headers(api_key)
    &&& r.body matches BodyView::Json(body)
    &&& is_enrich_body(body, linkedin_url)
}

/// `contact.most_probable_email` of an answer, or nothing.
pub open spec fn contact_email(body: Json) -> Seq<char> {
    body.field("contact"@).field("most_probable_email"@).text_or_empty()
}

/// Builds the enrichment request for a profile.
pub fn enrich_request(linkedin_url: &str, api_key: &str) -> (r: HttpRequest)
    ensures
        is_enrich_request(r@, linkedin_url@, api_key@),
{
    let mut headers: Vec<(String, String)> = Vec::new();
    headers.push(pair("accept", "application/json"));
    headers.push(pair("content-type", "application/json"));
    headers.push(pair("x-api-key", api_key));
    let mut fields: Vec<(String, Json)> = Vec::new();
    fields.push((key("linkedin_url"), Json::Str(String::from_str(linkedin_url))));
    let r = HttpRequest {
        url: String::from_str("https://api.zeliq.com/api/contact/enrich/email"),
        headers,
        body: Body::Json(Json::Object(fields)),
    };
    assert(pairs_view(r.headers@) =~= enrich_headers(api_key@));
    r
}

/// Reads `contact.most_probable_email` of an answer; empty where it holds none.
pub fn email_of(body: &Json) -> (r: String)
    ensures
        r@ == contact_email(*body),
{
    let contact = member(Some(body), &key("contact"));
    let email = member(contact, &key("most_probable_email"));
    text_or_empty(email)
}

/// Starts the Zeliq lookup of a profile's address. It ends with the most
/// probable address, or with an empty one where the status is not a
/// success or the answer holds none.
pub fn get_email_from_linkedin(linkedin_url: &str, api_key: &str) -> (r: (EmailLookup, Step))
    ensures
        r.0 == started(Service::Zeliq),
        r.1 matches Step::Send(req) && is_enrich_request(req@, linkedin_url@, api_key@),
{
    EmailLookup::start(Service::Zeliq, enrich_request(linkedin_url, api_key))
}

} // verus!
