use intern_copilot::apis::gpt::{first_reply, generate_from_gpt, GptError};
use intern_copilot::json::{Json, Number};
use intern_copilot::llm_calls::{EmailAPI, InternCopilot};
use intern_copilot::pipeline::email_finder::{accept_found, get_email, EmailSource, FinderError};
use intern_copilot::pipeline::outreach::{Ask, Outreach, Stage};
use intern_copilot::pipeline::parsing::apify_json;
use intern_copilot::text::{decimal_string, is_whitespace, trim};

fn to_json(v: &serde_json::Value) -> Json {
    match v {
        serde_json::Value::Null => Json::Null,
        serde_json::Value::Bool(b) => Json::Bool(*b),
        serde_json::Value::Number(n) => match (n.as_u64(), n.as_i64()) {
            (Some(u), _) => Json::Number(Number::UInt(u)),
            (None, Some(i)) => Json::Number(Number::NegInt(i)),
            _ => Json::Number(Number::Other(n.to_string())),
        },
        serde_json::Value::String(s) => Json::Str(s.clone()),
        serde_json::Value::Array(a) => Json::Array(a.iter().map(to_json).collect()),
        serde_json::Value::Object(m) => Json::Object(m.iter().map(|(k, v)| (k.clone(), to_json(v))).collect()),
    }
}

fn parse(text: &str) -> Json {
    to_json(&serde_json::from_str::<serde_json::Value>(text).unwrap())
}

fn prompt_of(ask: &Ask) -> (String, String) {
    match ask {
        Ask::Prompt { prompt_file, input } => (prompt_file.clone(), input.clone()),
        Ask::Final(_) => panic!("the chain ended early"),
    }
}

#[test]
fn profile_is_condensed() {
    let profile = parse(
        r#"{
        "firstName": "Ada", "lastName": "Lovelace", "about": "Mathematician", "companyName": "Engines Ltd",
        "experiences": [
            {"subComponents": [
                {"title": "Analyst", "description": [{"text": "Wrote"}, {"type": "x"}, {"text": "notes"}]},
                {"title": "Writer"}
            ]},
            {"title": "no roles"},
            {"subComponents": [{"description": [{"text": "Only text"}]}]}
        ]
    }"#,
    );
    let text = apify_json(&profile);
    let back: serde_json::Map<String, serde_json::Value> = serde_json::from_str(&text).unwrap();
    let get = |k: &str| back.get(k).and_then(|v| v.as_str()).unwrap().to_string();
    assert_eq!(back.len(), 7);
    assert_eq!(get("firstName"), "Ada");
    assert_eq!(get("lastName"), "Lovelace");
    assert_eq!(get("email"), "Mathematician");
    assert_eq!(get("company"), "Engines Ltd");
    assert_eq!(get("experience1"), "Analyst: Wrote notes");
    assert_eq!(get("experience2"), "Writer: ");
    assert_eq!(get("experience3"), ": Only text");
    assert!(text.contains("\n  \"company\": \"Engines Ltd\""));
}

#[test]
fn empty_profile_keeps_four_fields() {
    let text = apify_json(&parse(r#"{"experiences": "none"}"#));
    let back: serde_json::Map<String, serde_json::Value> = serde_json::from_str(&text).unwrap();
    assert_eq!(back.len(), 4);
    assert_eq!(back.get("firstName").unwrap(), "");
    let text = apify_json(&parse("[]"));
    let back: serde_json::Map<String, serde_json::Value> = serde_json::from_str(&text).unwrap();
    assert_eq!(back.len(), 4);
}

#[test]
fn ten_or_more_roles_are_numbered_in_decimal() {
    let mut roles = String::new();
    for i in 0..12 {
        if i > 0 {
            roles.push(',');
        }
        roles.push_str(&format!("{{\"title\": \"t{}\"}}", i));
    }
    let profile = parse(&format!("{{\"experiences\": [{{\"subComponents\": [{}]}}]}}", roles));
    let back: serde_json::Map<String, serde_json::Value> = serde_json::from_str(&apify_json(&profile)).unwrap();
    assert_eq!(back.get("experience12").unwrap(), "t11: ");
    assert_eq!(back.get("experience10").unwrap(), "t9: ");
}

#[test]
fn decimal_numerals() {
    assert_eq!(decimal_string(0), "0");
    assert_eq!(decimal_string(7), "7");
    assert_eq!(decimal_string(10), "10");
    assert_eq!(decimal_string(1234), "1234");
    assert_eq!(decimal_string(usize::MAX), usize::MAX.to_string());
}

#[test]
fn trimming_matches_std() {
    for s in ["  a@b.com \n", "\t\r\n", "", "x", " \u{3000}mail\u{2009} ", "\u{85}a b\u{a0}", "a\u{200b}"] {
        assert_eq!(trim(s), s.trim());
    }
    for c in ['\u{0}', ' ', '\t', '\u{0b}', '\u{1c}', '\u{85}', '\u{a0}', '\u{1680}', '\u{2000}', '\u{200a}', '\u{200b}', '\u{2028}', '\u{202f}', '\u{205f}', '\u{3000}', '\u{feff}', 'a'] {
        assert_eq!(is_whitespace(c), c.is_whitespace());
    }
}

#[test]
fn typed_email_wins() {
    assert!(matches!(get_email("  ada@example.com \n"), EmailSource::Typed(e) if e == "ada@example.com"));
    assert!(matches!(get_email("\n"), EmailSource::LookUp));
    assert!(matches!(get_email(""), EmailSource::LookUp));
}

#[test]
fn found_email_must_not_be_empty() {
    assert_eq!(accept_found("x@y.z".to_string()), Ok("x@y.z".to_string()));
    assert_eq!(accept_found(String::new()), Err(FinderError::NothingFound));
}

#[test]
fn gpt_request_and_reply() {
    let r = generate_from_gpt("SYSTEM".to_string(), "{\"a\": 1}");
    assert_eq!(r.model, "gpt-4o-mini");
    assert_eq!(r.system, "SYSTEM");
    assert_eq!(r.user, "{\"a\": 1}");
    assert_eq!(first_reply(vec![Some("hi".to_string()), Some("other".to_string())]), Ok("hi".to_string()));
    assert_eq!(first_reply(vec![None, Some("other".to_string())]), Err(GptError::NoResponse));
    assert_eq!(first_reply(vec![]), Err(GptError::NoResponse));
}

#[test]
fn chain_runs_four_prompts_in_order() {
    let (chain, ask) = Outreach::start("PROFILE".to_string(), "ada@example.com".to_string(), "ME".to_string());
    assert_eq!(prompt_of(&ask), ("llm1_parse_json.txt".to_string(), "PROFILE".to_string()));
    let (chain, ask) = chain.advance("parsed".to_string());
    assert_eq!(
        prompt_of(&ask),
        (
            "llm2_summarize_info.txt".to_string(),
            "TARGET PERSON'S LINKEDIN DATA:\nparsed\n\n--- SEPARATOR ---\n\nMY PERSONAL CONTEXT:\nME".to_string()
        )
    );
    let (chain, ask) = chain.advance("strategy".to_string());
    assert_eq!(
        prompt_of(&ask),
        ("llm3_compose_letter.txt".to_string(), "strategy\n\nVERIFIED EMAIL: ada@example.com".to_string())
    );
    let (chain, ask) = chain.advance("letter".to_string());
    assert_eq!(
        prompt_of(&ask),
        ("llm4_add_personality_mailto.txt".to_string(), "letter\n\nVERIFIED EMAIL: ada@example.com".to_string())
    );
    let (chain, ask) = chain.advance("mailto:ada@example.com".to_string());
    assert!(matches!(ask, Ask::Final(ref t) if t == "mailto:ada@example.com"));
    assert!(matches!(chain.stage, Stage::Done));
    let (chain, ask) = chain.advance("again".to_string());
    assert!(matches!(ask, Ask::Final(ref t) if t == "again"));
    assert!(matches!(chain.stage, Stage::Done));
}

#[test]
fn copilot_keeps_context_and_starts_chain() {
    let copilot = InternCopilot::new(EmailAPI::Zeliq, "Stanford MS CS".to_string());
    assert_eq!(copilot.user_context(), "Stanford MS CS");
    assert!(matches!(copilot.email_service(), EmailAPI::Zeliq));
    let profile = parse(r#"{"firstName": "Ada"}"#);
    let (chain, ask) = copilot.generate_email("ada@example.com".to_string(), &profile);
    let (file, input) = prompt_of(&ask);
    assert_eq!(file, "llm1_parse_json.txt");
    assert_eq!(input, apify_json(&profile));
    assert_eq!(chain.personal_context, "Stanford MS CS");
    assert_eq!(chain.email, "ada@example.com");
    let (_, ask) = chain.advance("P".to_string());
    assert!(prompt_of(&ask).1.ends_with("MY PERSONAL CONTEXT:\nStanford MS CS"));
}
