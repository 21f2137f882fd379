//! LeadIQ's people search: the request and the reading of its answer.

use vstd::prelude::*;
use crate::http::{Body, BodyView, ErrorView, HttpRequest, LookupError, Reply, ReplyView, RequestView, Step, StepView, is_success, outcome_view, pair, pairs_view, success};
use crate::json::{Json, lookup_in, key, member, text_or_empty};
use crate::lookup::{EmailLookup, Service, answered, started};

verus! {

/// The GraphQL query that searches people by their LinkedIn address.
pub const SEARCH_PEOPLE_QUERY: &'static str = "\n        query SearchPeople($input: SearchPeopleInput!) {\n          searchPeople(input: $input) {\n            totalResults\n            hasMore\n            results {\n              _id\n              name {\n                first\n                fullName\n                last\n              }\n              currentPositions {\n                title\n                emails {\n                  type\n                  status\n                  value\n                }\n                companyInfo {\n                  name\n                }\n              }\n              linkedin {\n                linkedinUrl\n              }\n              personalEmails {\n                type\n                status\n                value\n              }\n            }\n          }\n        }\n    ";

/// The search endpoint.
pub open spec fn search_url() -> Seq<char> {
    "https://api.leadiq.com/graphql"@
}

/// The headers of a search request: the key goes in `Authorization` after `Basic `.
pub open spec fn search_headers(api_key: Seq<char>) -> Seq<(Seq<char>, Seq<char>)> {
    seq![
        ("accept"@, "application/json"@),
        ("Content-Type"@, "application/json"@),
        ("Authorization"@, "Basic "@ + api_key),
    ]
}

/// An object whose members have exactly these keys, in this order.
pub open spec fn has_keys(j: Json, keys: Seq<Seq<char>>) -> bool {
    &&& j matches Json::Object(fields)
    &&& fields@.len() == keys.len()
    &&& forall|i: int| 0 <= i < keys.len() ==> #[trigger] fields@[i].0@ == keys[i]
}

/// The body of a search request:
/// `{"query": <query>, "variables": {"input": {"linkedinUrl": <profile>}}}`.
pub open spec fn is_search_body(body: Json, linkedin_url: Seq<char>) -> bool {
    let input = body.field("variables"@).field("input"@);
    &&& has_keys(body, seq!["query"@, "variables"@])
    &&& body.field("query"@).text() == Some(SEARCH_PEOPLE_QUERY@)
    &&& has_keys(body.field("variables"@), seq!["input"@])
    &&& has_keys(input, seq!["linkedinUrl"@])
    &&& input.field("linkedinUrl"@).text() == Some(linkedin_url)
}

/// The search request for a profile.
pub open spec fn is_search_request(r: RequestView, linkedin_url: Seq<char>, api_key: Seq<char>) -> bool {
    &&& r.url == search_url()
    &&& r.headers == search_headers(api_key)
    &&& r.body matches BodyView::Json(body)
    &&& is_search_body(body, linkedin_url)
}

/// The first non-empty `value` among these e-mail entries.
pub open spec fn first_value(emails: Seq<Json>) -> Option<Seq<char>>
    decreases emails.len(),
{
    if emails.len() == 0 {
        None
    } else {
        match emails[0].field("value"@).text() {
            Some(s) => if s.len() > 0 {
                Some(s)
            } else {
                first_value(emails.drop_first())
            },
            None => first_value(emails.drop_first()),
        }
    }
}

/// The first non-empty work address among these positions, in order.
pub open spec fn first_work_email(positions: Seq<Json>) -> Option<Seq<char>>
    decreases positions.len(),
{
    if positions.len() == 0 {
        None
    } else {
        let here = match positions[0].field("emails"@).items() {
            Some(es) => first_value(es),
            None => None,
        };
        match here {
            Some(s) => Some(s),
            None => first_work_email(positions.drop_first()),
        }
    }
}

/// The address of the first person found: a work address of a current
/// position first, a personal address after; nothing where the answer
/// holds errors, counts no result, or holds no such address.
pub open spec fn leadiq_email(body: Json) -> Seq<char> {
    let search = body.field("data"@).field("searchPeople"@);
    let total = match search.field("totalResults"@).unsigned() {
        Some(n) => n,
        None => 0,
    };
    if body.lookup("errors"@) is Some {
        Seq::empty()
    } else if total == 0 {
        Seq::empty()
    } else {
        match search.field("results"@).element(0) {
            None => Seq::empty(),
            Some(person) => {
                let work = match person.field("currentPositions"@).items() {
                    Some(ps) => first_work_email(ps),
                    None => None,
                };
                let personal = match person.field("personalEmails"@).items() {
                    Some(es) => first_value(es),
                    None => None,
                };
                match work {
                    Some(s) => s,
                    None => match personal {
                        Some(s) => s,
                        None => Seq::empty(),
                    },
                }
            },
        }
    }
}

/// An optional string read as characters.
pub open spec fn opt_string(o: Option<String>) -> Option<Seq<char>> {
    match o {
        Some(s) => Some(s@),
        None => None,
    }
}

/// Finds the first non-empty `value` among e-mail entries.
pub fn first_value_of(emails: &Vec<Json>) -> (r: Option<String>)
    ensures
        opt_string(r) == first_value(emails@),
{
    let mut i: usize = 0;
    proof {
        assert(emails@.skip(0) =~= emails@);
    }
    while i < emails.len()
        invariant
            i <= emails@.len(),
            first_value(emails@) == first_value(emails@.skip(i as int)),
        decreases emails@.len() - i,
    {
        proof {
            assert(emails@.skip(i as int).drop_first() =~= emails@.skip(i + 1));
            assert(emails@.skip(i as int)[0] == emails@[i as int]);
        }
        let value = member(Some(&emails[i]), &key("value"));
        match value {
            Some(v) => match v.as_str() {
                Some(s) => {
                    if s.unicode_len() > 0 {
                        return Some(s.clone());
                    }
                },
                None => {},
            },
            None => {},
        }
        i = i + 1;
    }
    None
}

/// Finds the first non-empty work address among positions.
pub fn first_work_email_of(positions: &Vec<Json>) -> (r: Option<String>)
    ensures
        opt_string(r) == first_work_email(positions@),
{
    let mut i: usize = 0;
    proof {
        assert(positions@.skip(0) =~= positions@);
    }
    while i < positions.len()
        invariant
            i <= positions@.len(),
            first_work_email(positions@) == first_work_email(positions@.skip(i as int)),
        decreases positions@.len() - i,
    {
        proof {
            assert(positions@.skip(i as int).drop_first() =~= positions@.skip(i + 1));
            assert(positions@.skip(i as int)[0] == positions@[i as int]);
        }
        let emails = member(Some(&positions[i]), &key("emails"));
        match emails {
            Some(e) => match e.as_array() {
                Some(es) => {
                    let found = first_value_of(es);
                    if found.is_some() {
                        return found;
                    }
                },
                None => {},
            },
            None => {},
        }
        i = i + 1;
    }
    None
}

/// Reads the address of the first person found in a search answer; empty
/// where there is none.
pub fn email_of(body: &Json) -> (r: String)
    ensures
        r@ == leadiq_email(*body),
{
    if body.get(&key("errors")).is_some() {
        return String::new();
    }
    let search = member(member(Some(body), &key("data")), &key("searchPeople"));
    let total = match member(search, &key("totalResults")) {
        Some(t) => match t.as_u64() {
            Some(n) => n,
            None => 0,
        },
        None => 0,
    };
    if total == 0 {
        return String::new();
    }
    let results = member(search, &key("results"));
    let person = match results {
        Some(rs) => rs.get_index(0),
        None => None,
    };
    match person {
        None => String::new(),
        Some(p) => {
            let positions = member(Some(p), &key("currentPositions"));
            let work = match positions {
                Some(ps) => match ps.as_array() {
                    Some(list) => first_work_email_of(list),
                    None => None,
                },
                None => None,
            };
            match work {
                Some(s) => s,
                None => {
                    let personal = member(Some(p), &key("personalEmails"));
                    let found = match personal {
                        Some(es) => match es.as_array() {
                            Some(list) => first_value_of(list),
                            None => None,
                        },
                        None => None,
                    };
                    match found {
                        Some(s) => s,
                        None => String::new(),
                    }
                },
            }
        },
    }
}

/// Builds the search request for a profile.
pub fn search_request(linkedin_url: &str, api_key: &str) -> (r: HttpRequest)
    ensures
        is_search_request(r@, linkedin_url@, api_key@),
{
    let mut auth = String::from_str("Basic ");
    auth.append(api_key);
    let mut headers: Vec<(String, String)> = Vec::new();
    headers.push(pair("accept", "application/json"));
    headers.push(pair("Content-Type", "application/json"));
    headers.push((key("Authorization"), auth));
    let mut input_fields: Vec<(String, Json)> = Vec::new();
    input_fields.push((key("linkedinUrl"), Json::Str(String::from_str(linkedin_url))));
    let mut variables_fields: Vec<(String, Json)> = Vec::new();
    variables_fields.push((key("input"), Json::Object(input_fields)));
    let mut body_fields: Vec<(String, Json)> = Vec::new();
    body_fields.push((key("query"), Json::Str(String::from_str(SEARCH_PEOPLE_QUERY))));
    body_fields.push((key("variables"), Json::Object(variables_fields)));
    let ghost bf = body_fields@;
    let body = Json::Object(body_fields);
    proof {
        reveal_with_fuel(crate::json::lookup_in, 3);
        reveal_strlit("query");
        reveal_strlit("variables");
        assert("query"@.len() != "variables"@.len());
        assert(bf[0].0@ != "variables"@);
        assert(bf.drop_first() =~= seq![bf[1]]);
        assert(lookup_in(bf, "variables"@) == Some(bf[1].1));
    }
    let r = HttpRequest { url: String::from_str("https://api.leadiq.com/graphql"), headers, body: Body::Json(body) };
    assert(pairs_view(r.headers@) =~= search_headers(api_key@));
    r
}

/// Starts the LeadIQ lookup of a profile's address. It ends with the
/// address of the first person found, or with an empty one where the
/// status is not a success, the answer holds errors, or it holds no
/// address.
pub fn get_email_from_linkedin(linkedin_url: &str, api_key: &str) -> (r: (EmailLookup, Step))
    ensures
        r.0 == started(Service::LeadIq),
        r.1 matches Step::Send(req) && is_search_request(req@, linkedin_url@, api_key@),
{
    EmailLookup::start(Service::LeadIq, search_request(linkedin_url, api_key))
}

/// An e-mail entry whose `value` is a non-empty string.
pub open spec fn has_value(entry: Json) -> bool {
    entry.field("value"@).text() matches Some(v) && v.len() > 0
}

/// The first entry with a non-empty `value` decides: where entry `k` has
/// one and no earlier entry does, the answer is entry `k`'s value.
pub proof fn lemma_first_value_lowest(emails: Seq<Json>, k: int)
    requires
        0 <= k < emails.len(),
        has_value(emails[k]),
        forall|j: int| 0 <= j < k ==> !has_value(#[trigger] emails[j]),
    ensures
        first_value(emails) == emails[k].field("value"@).text(),
    decreases k,
{
    if k > 0 {
        assert(!has_value(emails[0]));
        let rest = emails.drop_first();
        assert forall|j: int| 0 <= j < k - 1 implies !has_value(#[trigger] rest[j]) by {
            assert(rest[j] == emails[j + 1]);
        }
        lemma_first_value_lowest(rest, k - 1);
        assert(rest[k - 1] == emails[k]);
    }
}

/// Without any entry with a non-empty `value`, there is no answer.
pub proof fn lemma_first_value_none(emails: Seq<Json>)
    requires
        forall|j: int| 0 <= j < emails.len() ==> !has_value(#[trigger] emails[j]),
    ensures
        first_value(emails) is None,
    decreases emails.len(),
{
    if emails.len() > 0 {
        assert(!has_value(emails[0]));
        let rest = emails.drop_first();
        assert forall|j: int| 0 <= j < rest.len() implies !has_value(#[trigger] rest[j]) by {
            assert(rest[j] == emails[j + 1]);
        }
        lemma_first_value_none(rest);
    }
}

/// A current position with a work address: its `emails` array holds an
/// entry with a non-empty `value`.
pub open spec fn has_work_email(position: Json) -> bool {
    position.field("emails"@).items() matches Some(es) && exists|m: int| 0 <= m < es.len() && has_value(#[trigger] es[m])
}

/// The first position with a work address decides, and within it the
/// first entry with a non-empty `value`: where position `k` has one at
/// entry `m` and no earlier position or entry does, the answer is that value.
pub proof fn lemma_first_work_email_lowest(positions: Seq<Json>, k: int, es: Seq<Json>, m: int)
    requires
        0 <= k < positions.len(),
        positions[k].field("emails"@).items() == Some(es),
        0 <= m < es.len(),
        has_value(es[m]),
        forall|j: int| 0 <= j < m ==> !has_value(#[trigger] es[j]),
        forall|j: int| 0 <= j < k ==> !has_work_email(#[trigger] positions[j]),
    ensures
        first_work_email(positions) == es[m].field("value"@).text(),
    decreases k,
{
    if k > 0 {
        assert(!has_work_email(positions[0]));
        match positions[0].field("emails"@).items() {
            Some(es0) => {
                assert forall|j: int| 0 <= j < es0.len() implies !has_value(#[trigger] es0[j]) by {
                    if has_value(es0[j]) {
                        assert(has_work_email(positions[0]));
                    }
                }
                lemma_first_value_none(es0);
            },
            None => {},
        }
        let rest = positions.drop_first();
        assert forall|j: int| 0 <= j < k - 1 implies !has_work_email(#[trigger] rest[j]) by {
            assert(rest[j] == positions[j + 1]);
        }
        assert(rest[k - 1] == positions[k]);
        lemma_first_work_email_lowest(rest, k - 1, es, m);
    } else {
        lemma_first_value_lowest(es, m);
    }
}

/// Without any position with a work address, there is no work address.
pub proof fn lemma_first_work_email_none(positions: Seq<Json>)
    requires
        forall|j: int| 0 <= j < positions.len() ==> !has_work_email(#[trigger] positions[j]),
    ensures
        first_work_email(positions) is None,
    decreases positions.len(),
{
    if positions.len() > 0 {
        assert(!has_work_email(positions[0]));
        match positions[0].field("emails"@).items() {
            Some(es0) => {
                assert forall|j: int| 0 <= j < es0.len() implies !has_value(#[trigger] es0[j]) by {
                    if has_value(es0[j]) {
                        assert(has_work_email(positions[0]));
                    }
                }
                lemma_first_value_none(es0);
            },
            None => {},
        }
        let rest = positions.drop_first();
        assert forall|j: int| 0 <= j < rest.len() implies !has_work_email(#[trigger] rest[j]) by {
            assert(rest[j] == positions[j + 1]);
        }
        lemma_first_work_email_none(rest);
    }
}

/// A search answer without errors, counting results, whose first person's
/// first work address (lowest position, then lowest entry) is `value` at
/// entry `m` of position `k`, gives that address.
pub proof fn lemma_leadiq_work_email(
    status: u16,
    body: Json,
    person: Json,
    positions: Seq<Json>,
    k: int,
    es: Seq<Json>,
    m: int,
)
    requires
        success(status),
        body.lookup("errors"@) is None,
        body.field("data"@).field("searchPeople"@).field("totalResults"@).unsigned() matches Some(n) && n > 0,
        body.field("data"@).field("searchPeople"@).field("results"@).element(0) == Some(person),
        person.field("currentPositions"@).items() == Some(positions),
        0 <= k < positions.len(),
        positions[k].field("emails"@).items() == Some(es),
        0 <= m < es.len(),
        has_value(es[m]),
        forall|j: int| 0 <= j < m ==> !has_value(#[trigger] es[j]),
        forall|j: int| 0 <= j < k ==> !has_work_email(#[trigger] positions[j]),
    ensures
        es[m].field("value"@).text() matches Some(v) && leadiq_email(body) == v && answered(
            Service::LeadIq,
            status,
            body,
        ) == StepView::Finish(Ok::<Seq<char>, ErrorView>(v)),
{
    lemma_first_work_email_lowest(positions, k, es, m);
}

/// A search answer without errors, counting results, whose first person has
/// no work address, gives that person's first personal address (the first
/// `personalEmails` entry with a non-empty `value`).
pub proof fn lemma_leadiq_personal_email(status: u16, body: Json, person: Json, personal: Seq<Json>, m: int)
    requires
        success(status),
        body.lookup("errors"@) is None,
        body.field("data"@).field("searchPeople"@).field("totalResults"@).unsigned() matches Some(n) && n > 0,
        body.field("data"@).field("searchPeople"@).field("results"@).element(0) == Some(person),
        forall|positions: Seq<Json>| person.field("currentPositions"@).items() == Some(positions) ==> forall|j: int|
            0 <= j < positions.len() ==> !has_work_email(#[trigger] positions[j]),
        person.field("personalEmails"@).items() == Some(personal),
        0 <= m < personal.len(),
        has_value(personal[m]),
        forall|j: int| 0 <= j < m ==> !has_value(#[trigger] personal[j]),
    ensures
        personal[m].field("value"@).text() matches Some(v) && leadiq_email(body) == v && answered(
            Service::LeadIq,
            status,
            body,
        ) == StepView::Finish(Ok::<Seq<char>, ErrorView>(v)),
{
    match person.field("currentPositions"@).items() {
        Some(ps) => lemma_first_work_email_none(ps),
        None => {},
    }
    lemma_first_value_lowest(personal, m);
}

} // verus!
