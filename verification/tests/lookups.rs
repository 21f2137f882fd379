use intern_copilot::apis::appollo::{email_of as apollo_email_of, find_email, match_request};
use intern_copilot::appollo::get_email_from_linkedin as apollo_legacy_lookup;
use intern_copilot::http::{is_success, Body, LookupError, Reply, Step};
use intern_copilot::json::{Json, Number};
use intern_copilot::lead_iq::{email_of as leadiq_email_of, get_email_from_linkedin as leadiq_lookup, SEARCH_PEOPLE_QUERY};
use intern_copilot::llm_calls::EmailAPI;
use intern_copilot::lookup::{EmailLookup, Phase, Service};
use intern_copilot::parse_email::parse_email;
use intern_copilot::snov::{email_of as snov_email_of, get_email_from_linkedin as snov_lookup, SnovLookup, SnovPhase};
use intern_copilot::zeliq::{email_of as zeliq_email_of, get_email_from_linkedin as zeliq_lookup};

fn to_json(v: &serde_json::Value) -> Json {
    match v {
        serde_json::Value::Null => Json::Null,
        serde_json::Value::Bool(b) => Json::Bool(*b),
        serde_json::Value::Number(n) => match (n.as_u64(), n.as_i64()) {
            (Some(u), _) => Json::Number(Number::UInt(u)),
            (None, Some(i)) => Json::Number(Number::NegInt(i)),
            _ => Json::Number(Number::Other(n.to_string())),
        },
        serde_json::Value::String(s) => Json::Str(s.clone()),
        serde_json::Value::Array(a) => Json::Array(a.iter().map(to_json).collect()),
        serde_json::Value::Object(m) => Json::Object(m.iter().map(|(k, v)| (k.clone(), to_json(v))).collect()),
    }
}

fn parse(text: &str) -> Json {
    to_json(&serde_json::from_str::<serde_json::Value>(text).unwrap())
}

fn finish_of(step: Step) -> Result<String, LookupError> {
    match step {
        Step::Finish(r) => r,
        _ => panic!("the lookup did not finish"),
    }
}

fn run_single(start: (EmailLookup, Step), status: u16, body: &str) -> Result<String, LookupError> {
    let (lookup, step) = start;
    assert!(matches!(step, Step::Send(_)));
    let (lookup, step) = lookup.resume(Reply::Status(status));
    match step {
        Step::ReadJson => finish_of(lookup.resume(Reply::Json(parse(body))).1),
        Step::ReadText => finish_of(lookup.resume(Reply::Text(body.to_string())).1),
        Step::Finish(r) => r,
        Step::Send(_) => panic!("a second request was asked for"),
    }
}

fn encoded_profile(url: &str) -> String {
    let r = match_request(url, "k");
    let prefix = "https://api.apollo.io/api/v1/people/match?linkedin_url=";
    let suffix = "&reveal_personal_emails=false&reveal_phone_number=false";
    assert!(r.url.starts_with(prefix) && r.url.ends_with(suffix));
    r.url[prefix.len()..r.url.len() - suffix.len()].to_string()
}

#[test]
fn url_encoding_escapes_reserved_bytes() {
    assert_eq!(encoded_profile("https://www.linkedin.com/in/someone/"), "https%3A%2F%2Fwww.linkedin.com%2Fin%2Fsomeone%2F");
    assert_eq!(encoded_profile("a-b_c.d~e"), "a-b_c.d~e");
    assert_eq!(encoded_profile("é ?"), "%C3%A9%20%3F");
    assert_eq!(encoded_profile(""), "");
}

#[test]
fn apollo_request_has_encoded_profile_and_key() {
    let r = match_request("https://www.linkedin.com/in/x/", "KEY");
    assert_eq!(
        r.url,
        "https://api.apollo.io/api/v1/people/match?linkedin_url=https%3A%2F%2Fwww.linkedin.com%2Fin%2Fx%2F&reveal_personal_emails=false&reveal_phone_number=false"
    );
    let headers: Vec<(&str, &str)> = r.headers.iter().map(|(k, v)| (k.as_str(), v.as_str())).collect();
    assert_eq!(
        headers,
        vec![("accept", "application/json"), ("Cache-Control", "no-cache"), ("Content-Type", "application/json"), ("x-api-key", "KEY")]
    );
    assert!(matches!(r.body, Body::Empty));
}

#[test]
fn apollo_finds_person_email() {
    let r = run_single(find_email("u", "k"), 200, r#"{"person": {"email": "ada@example.com", "name": "Ada"}}"#);
    assert_eq!(r, Ok("ada@example.com".to_string()));
}

#[test]
fn apollo_without_email_is_an_error() {
    assert_eq!(run_single(find_email("u", "k"), 200, r#"{"person": {"email": ""}}"#), Err(LookupError::NoEmail));
    assert_eq!(run_single(find_email("u", "k"), 200, r#"{"person": null}"#), Err(LookupError::NoEmail));
    assert_eq!(run_single(find_email("u", "k"), 200, r#"[1, 2]"#), Err(LookupError::NoEmail));
}

#[test]
fn apollo_refusal_reads_text_then_fails_with_status() {
    let (lookup, _) = find_email("u", "k");
    let (lookup, step) = lookup.resume(Reply::Status(422));
    assert!(matches!(step, Step::ReadText));
    let (_, step) = lookup.resume(Reply::Text("bad".to_string()));
    assert_eq!(finish_of(step), Err(LookupError::Status(422)));
}

#[test]
fn apollo_legacy_answers_empty_without_reading_refusal() {
    let (lookup, _) = apollo_legacy_lookup("u", "k");
    let (lookup, step) = lookup.resume(Reply::Status(500));
    assert_eq!(finish_of(step), Ok(String::new()));
    assert!(matches!(lookup.phase, Phase::Done));
    assert_eq!(run_single(apollo_legacy_lookup("u", "k"), 200, r#"{"person": {}}"#), Ok(String::new()));
    assert_eq!(run_single(apollo_legacy_lookup("u", "k"), 201, r#"{"person": {"email": "x@y.z"}}"#), Ok("x@y.z".to_string()));
}

#[test]
fn reply_out_of_turn_is_unexpected() {
    let (lookup, _) = find_email("u", "k");
    let (lookup, step) = lookup.resume(Reply::Json(Json::Null));
    assert_eq!(finish_of(step), Err(LookupError::UnexpectedReply));
    let (_, step) = lookup.resume(Reply::Status(200));
    assert_eq!(finish_of(step), Err(LookupError::UnexpectedReply));
}

#[test]
fn success_range() {
    assert!(!is_success(199));
    assert!(is_success(200));
    assert!(is_success(299));
    assert!(!is_success(300));
    assert!(!is_success(404));
}

#[test]
fn zeliq_request_and_answer() {
    let (lookup, step) = zeliq_lookup("https://www.linkedin.com/in/x/", "ZK");
    assert!(matches!(lookup.service, Service::Zeliq));
    match step {
        Step::Send(r) => {
            assert_eq!(r.url, "https://api.zeliq.com/api/contact/enrich/email");
            assert_eq!(r.headers[2], ("x-api-key".to_string(), "ZK".to_string()));
            match r.body {
                Body::Json(Json::Object(fields)) => {
                    assert_eq!(fields.len(), 1);
                    assert_eq!(fields[0].0, "linkedin_url");
                    assert!(matches!(&fields[0].1, Json::Str(s) if s == "https://www.linkedin.com/in/x/"));
                },
                _ => panic!("the body is not a JSON object"),
            }
        },
        _ => panic!("no request"),
    }
    assert_eq!(
        zeliq_email_of(&parse(r#"{"contact": {"most_probable_email": "b@c.de", "most_probable_email_status": "valid"}}"#)),
        "b@c.de"
    );
    assert_eq!(zeliq_email_of(&parse(r#"{"contact": {"most_probable_email": 3}}"#)), "");
    assert_eq!(zeliq_email_of(&parse(r#"{}"#)), "");
    assert_eq!(run_single(zeliq_lookup("u", "k"), 403, "denied"), Ok(String::new()));
}

#[test]
fn leadiq_request_body() {
    let (_, step) = leadiq_lookup("https://lnkd/x", "LK");
    match step {
        Step::Send(r) => {
            assert_eq!(r.url, "https://api.leadiq.com/graphql");
            assert_eq!(r.headers[2], ("Authorization".to_string(), "Basic LK".to_string()));
            match r.body {
                Body::Json(body) => {
                    let query = body.get(&"query".to_string()).unwrap();
                    assert!(matches!(query, Json::Str(q) if q == SEARCH_PEOPLE_QUERY));
                    let input = body.get(&"variables".to_string()).unwrap().get(&"input".to_string()).unwrap();
                    assert!(matches!(input.get(&"linkedinUrl".to_string()), Some(Json::Str(u)) if u == "https://lnkd/x"));
                },
                _ => panic!("the body is not JSON"),
            }
        },
        _ => panic!("no request"),
    }
    assert!(SEARCH_PEOPLE_QUERY.contains("query SearchPeople($input: SearchPeopleInput!)"));
}

#[test]
fn leadiq_prefers_work_email_then_personal() {
    let body = r#"{"data": {"searchPeople": {"totalResults": 2, "results": [
        {"currentPositions": [
            {"emails": [{"value": ""}, {"value": null}]},
            {"title": "no emails"},
            {"emails": [{"value": "work@corp.com"}]}
         ],
         "personalEmails": [{"value": "me@home.net"}]},
        {"personalEmails": [{"value": "other@x.y"}]}
    ]}}}"#;
    assert_eq!(leadiq_email_of(&parse(body)), "work@corp.com");
    let personal = r#"{"data": {"searchPeople": {"totalResults": 1, "results": [
        {"currentPositions": [{"emails": []}], "personalEmails": [{"value": ""}, {"value": "me@home.net"}]}
    ]}}}"#;
    assert_eq!(leadiq_email_of(&parse(personal)), "me@home.net");
    let none = r#"{"data": {"searchPeople": {"totalResults": 1, "results": [{"currentPositions": "x"}]}}}"#;
    assert_eq!(leadiq_email_of(&parse(none)), "");
}

#[test]
fn leadiq_errors_or_no_results_give_nothing() {
    let errors = r#"{"errors": [{"message": "bad"}], "data": {"searchPeople": {"totalResults": 1, "results": [{"personalEmails": [{"value": "a@b.c"}]}]}}}"#;
    assert_eq!(leadiq_email_of(&parse(errors)), "");
    let zero = r#"{"data": {"searchPeople": {"totalResults": 0, "results": [{"personalEmails": [{"value": "a@b.c"}]}]}}}"#;
    assert_eq!(leadiq_email_of(&parse(zero)), "");
    let missing_total = r#"{"data": {"searchPeople": {"results": [{"personalEmails": [{"value": "a@b.c"}]}]}}}"#;
    assert_eq!(leadiq_email_of(&parse(missing_total)), "");
    let negative_total = r#"{"data": {"searchPeople": {"totalResults": -1, "results": [{"personalEmails": [{"value": "a@b.c"}]}]}}}"#;
    assert_eq!(leadiq_email_of(&parse(negative_total)), "");
    let no_results = r#"{"data": {"searchPeople": {"totalResults": 3, "results": []}}}"#;
    assert_eq!(leadiq_email_of(&parse(no_results)), "");
    assert_eq!(run_single(leadiq_lookup("u", "k"), 200, errors), Ok(String::new()));
    assert_eq!(run_single(leadiq_lookup("u", "k"), 401, "unauthorized"), Ok(String::new()));
}

fn snov_finish(step: Step) -> Result<String, LookupError> {
    finish_of(step)
}

fn form_of(step: &Step) -> Vec<(String, String)> {
    match step {
        Step::Send(r) => match &r.body {
            Body::Form(f) => f.clone(),
            _ => panic!("not a form"),
        },
        _ => panic!("no request"),
    }
}

#[test]
fn snov_full_run() {
    let (lookup, step): (SnovLookup, Step) = snov_lookup("https://lnkd/x", "ID", "SECRET");
    assert_eq!(
        form_of(&step),
        vec![
            ("grant_type".to_string(), "client_credentials".to_string()),
            ("client_id".to_string(), "ID".to_string()),
            ("client_secret".to_string(), "SECRET".to_string()),
        ]
    );
    let (lookup, step) = lookup.resume(Reply::Status(200));
    assert!(matches!(step, Step::ReadJson));
    let (lookup, step) = lookup.resume(Reply::Json(parse(r#"{"access_token": "TOK", "expires_in": 3600}"#)));
    match &step {
        Step::Send(r) => assert_eq!(r.url, "https://api.snov.io/v1/add-url-for-search"),
        _ => panic!("no add request"),
    }
    assert_eq!(form_of(&step), vec![("access_token".to_string(), "TOK".to_string()), ("url".to_string(), "https://lnkd/x".to_string())]);
    let (lookup, step) = lookup.resume(Reply::Status(200));
    assert!(matches!(step, Step::ReadJson));
    let (lookup, step) = lookup.resume(Reply::Json(parse(r#"{"success": true}"#)));
    match &step {
        Step::Send(r) => assert_eq!(r.url, "https://api.snov.io/v1/get-emails-from-url"),
        _ => panic!("no get request"),
    }
    assert_eq!(form_of(&step), vec![("access_token".to_string(), "TOK".to_string()), ("url".to_string(), "https://lnkd/x".to_string())]);
    let (lookup, step) = lookup.resume(Reply::Status(200));
    assert!(matches!(step, Step::ReadJson));
    let (lookup, step) = lookup.resume(Reply::Json(parse(
        r#"{"data": [{"emails": [{"email": "first@x.io", "status": "valid"}, {"email": "second@x.io"}]}]}"#,
    )));
    assert_eq!(snov_finish(step), Ok("first@x.io".to_string()));
    assert!(matches!(lookup.phase, SnovPhase::Done));
}

#[test]
fn snov_token_failures() {
    let (lookup, _) = snov_lookup("u", "i", "s");
    let (lookup, step) = lookup.resume(Reply::Status(401));
    assert!(matches!(step, Step::ReadText));
    let (_, step) = lookup.resume(Reply::Text("invalid client".to_string()));
    assert_eq!(snov_finish(step), Err(LookupError::TokenRefused("invalid client".to_string())));

    let (lookup, _) = snov_lookup("u", "i", "s");
    let (lookup, _) = lookup.resume(Reply::Status(200));
    let (_, step) = lookup.resume(Reply::Json(parse(r#"{"token": "x"}"#)));
    assert_eq!(snov_finish(step), Err(LookupError::NoAccessToken));
}

#[test]
fn snov_later_refusals_give_empty() {
    let (lookup, _) = snov_lookup("u", "i", "s");
    let (lookup, _) = lookup.resume(Reply::Status(200));
    let (lookup, _) = lookup.resume(Reply::Json(parse(r#"{"access_token": "T"}"#)));
    let (lookup, step) = lookup.resume(Reply::Status(500));
    assert!(matches!(step, Step::ReadText));
    let (_, step) = lookup.resume(Reply::Text("oops".to_string()));
    assert_eq!(snov_finish(step), Ok(String::new()));
}

#[test]
fn snov_email_shapes() {
    assert_eq!(snov_email_of(&parse(r#"{"data": []}"#)), "");
    assert_eq!(snov_email_of(&parse(r#"{"data": {"emails": []}}"#)), "");
    assert_eq!(snov_email_of(&parse(r#"{"data": [{"emails": [{"status": "x"}]}]}"#)), "");
    assert_eq!(snov_email_of(&parse(r#"{"data": [{"emails": [{"email": ""}]}]}"#)), "");
}

#[test]
fn apollo_email_reading() {
    assert_eq!(apollo_email_of(&parse(r#"{"person": {"email": "p@q.r"}}"#)), "p@q.r");
    assert_eq!(apollo_email_of(&parse(r#"{"person": {"email": 5}}"#)), "");
}

#[test]
fn first_entry_email() {
    assert_eq!(parse_email(&parse(r#"[{"email": "a@b.c"}, {"email": "d@e.f"}]"#)), "a@b.c");
    assert_eq!(parse_email(&parse(r#"{"email": "a@b.c"}"#)), "");
    assert_eq!(parse_email(&parse(r#"[]"#)), "");
}

#[test]
fn email_api_dispatch() {
    let (lookup, step) = EmailAPI::Appollo.find_email("https://lnkd/x", "K");
    assert!(matches!(lookup.service, Service::Apollo));
    assert!(matches!(step, Step::Send(ref r) if r.url.starts_with("https://api.apollo.io/")));
    let (lookup, step) = EmailAPI::Zeliq.find_email("https://lnkd/x", "K");
    assert!(matches!(lookup.service, Service::Zeliq));
    assert!(matches!(step, Step::Send(ref r) if r.url == "https://api.zeliq.com/api/contact/enrich/email"));
}
