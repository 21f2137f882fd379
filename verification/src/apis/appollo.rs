//! Apollo's people match: the request and the reading of its answer.

use vstd::prelude::*;
use vstd::utf8::encode_utf8;
use crate::encoding::{url_encode, percent_encoded};
use crate::http::{Body, BodyView, ErrorView, HttpRequest, LookupError, Reply, ReplyView, RequestView, Step, StepView, is_success, outcome_view, pair, pairs_view, success};
use crate::json::{Json, key, member, text_or_empty};
use crate::lookup::{EmailLookup, Service, started};

verus! {

/// The people-match URL for a profile: its address percent-encoded into
/// the query, with personal e-mails and phone numbers not revealed.
pub open spec fn match_url(linkedin_url: Seq<char>) -> Seq<char> {
    "https://api.apollo.io/api/v1/people/match?linkedin_url="@ + percent_encoded(
        encode_utf8(linkedin_url),
    ) + "&reveal_personal_emails=false&reveal_phone_number=false"@
}

/// The headers of a people-match request.
pub open spec fn match_headers(api_key: Seq<char>) -> Seq<(Seq<char>, Seq<char>)> {
    seq![
        ("accept"@, "application/json"@),
        ("Cache-Control"@, "no-cache"@),
        ("Content-Type"@, "application/json"@),
        ("x-api-key"@, api_key),
    ]
}

/// The people-match request for a profile.
pub open spec fn match_request_view(linkedin_url: Seq<char>, api_key: Seq<char>) -> RequestView {
    RequestView {
        url: match_url(linkedin_url),
        headers: match_headers(api_key),
        body: BodyView::Empty,
    }
}

/// `person.email` of an answer, or nothing.
pub open spec fn person_email(body: Json) -> Seq<char> {
    body.field("person"@).field("email"@).text_or_empty()
}

/// Builds the people-match request for a profile.
pub fn match_request(linkedin_url: &str, api_key: &str) -> (r: HttpRequest)
    ensures
        r@ == match_request_view(linkedin_url@, api_key@),
{
    let encoded = url_encode(linkedin_url);
    let mut url = String::from_str("https://api.apollo.io/api/v1/people/match?linkedin_url=");
    url.append(encoded.as_str());
    url.append("&reveal_personal_emails=false&reveal_phone_number=false");
    let mut headers: Vec<(String, String)> = Vec::new();
    headers.push(pair("accept", "application/json"));
    headers.push(pair("Cache-Control", "no-cache"));
    headers.push(pair("Content-Type", "application/json"));
    headers.push(pair("x-api-key", api_key));
    let r = HttpRequest { url, headers, body: Body::Empty };
    assert(pairs_view(r.headers@) =~= match_headers(api_key@));
    r
}

/// Reads `person.email` of an answer; empty where it holds none.
pub fn email_of(body: &Json) -> (r: String)
    ensures
        r@ == person_email(*body),
{
    let person = member(Some(body), &key("person"));
    let email = member(person, &key("email"));
    text_or_empty(email)
}

/// Starts the Apollo lookup of a profile's address. It ends with the
/// address, or with an error where the status is not a success or the
/// answer holds no address.
pub fn find_email(linkedin_url: &str, api_key: &str) -> (r: (EmailLookup, Step))
    ensures
        r.0 == started(Service::Apollo),
        r.1@ == StepView::Send(match_request_view(linkedin_url@, api_key@)),
{
    EmailLookup::start(Service::Apollo, match_request(linkedin_url, api_key))
}

/// The people-match request carries the profile, percent-encoded, as the
/// `linkedin_url` query parameter, asks for neither personal e-mails nor
/// phone numbers, and sends the key in `x-api-key`.
pub proof fn lemma_match_request_carries_profile(linkedin_url: Seq<char>, api_key: Seq<char>)
    ensures
        match_request_view(linkedin_url, api_key).url == "https://api.apollo.io/api/v1/people/match?linkedin_url="@
            + percent_encoded(encode_utf8(linkedin_url))
            + "&reveal_personal_emails=false&reveal_phone_number=false"@,
        match_request_view(linkedin_url, api_key).headers.contains(("x-api-key"@, api_key)),
        match_request_view(linkedin_url, api_key).body == BodyView::Empty,
{
    assert(match_request_view(linkedin_url, api_key).headers[3] == ("x-api-key"@, api_key));
}

} // verus!
