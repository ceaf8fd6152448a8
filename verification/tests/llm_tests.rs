use helix_agent::db::MemoryHit;
use helix_agent::json::Json;
use serde_json::Value;
use helix_agent::llm::{offline_reply, system_prompt, Llm, LlmError, ReplyPlan, DEFAULT_MODEL};

fn hit(role: &str, text: &str, distance: &str) -> MemoryHit {
    MemoryHit {
        id: 1,
        distance: distance.to_string(),
        role: role.to_string(),
        text: text.to_string(),
        ts: "000000000000001".to_string(),
    }
}

#[test]
fn settings_from_environment_values() {
    let off = Llm::new(None, None);
    assert!(!off.online());
    assert_eq!(off.model(), DEFAULT_MODEL);
    let empty_key = Llm::new(Some(String::new()), Some("m".to_string()));
    assert!(!empty_key.online());
    assert_eq!(empty_key.model(), "m");
    let on = Llm::new(Some("gsk_x".to_string()), None);
    assert!(on.online());
    assert_eq!(on.model(), "llama-3.3-70b-versatile");
}

#[test]
fn offline_reply_without_memories() {
    assert_eq!(
        offline_reply("hello", &[]),
        "[offline mode — set GROQ_API_KEY for real replies]\nYou said: hello\nI have no related memories yet."
    );
}

#[test]
fn offline_reply_with_memories() {
    let one = offline_reply("hi", &[hit("user", "I like Rust", "0.120")]);
    assert_eq!(
        one,
        "[offline mode — set GROQ_API_KEY for real replies]\nYou said: hi\nHelixDB recalled 1 related memory:\n  • (user, dist 0.120) I like Rust\n"
    );
    let two = offline_reply("hi", &[hit("user", "a", "0.100"), hit("assistant", "b", "1.500")]);
    assert_eq!(
        two,
        "[offline mode — set GROQ_API_KEY for real replies]\nYou said: hi\nHelixDB recalled 2 related memories:\n  • (user, dist 0.100) a\n  • (assistant, dist 1.500) b\n"
    );
}

const PREAMBLE: &str = "You are a helpful assistant with long-term memory backed by HelixDB. Below are notes recalled from past conversations, most relevant first. Use them when relevant; do not mention them unless useful.\n\n";

#[test]
fn system_prompt_lists_memories() {
    assert_eq!(system_prompt(&[]), format!("{PREAMBLE}(no relevant past memories)\n"));
    assert_eq!(
        system_prompt(&[hit("user", "I live in Pune", "0.1"), hit("assistant", "Nice!", "0.2")]),
        format!("{PREAMBLE}- (user) I live in Pune\n- (assistant) Nice!\n")
    );
}

#[test]
fn plan_offline_and_online() {
    let off = Llm::new(None, None);
    match off.plan_reply("hello", &[]) {
        ReplyPlan::Offline(text) => assert_eq!(text, offline_reply("hello", &[])),
        _ => panic!("expected offline"),
    }
    let on = Llm::new(Some("gsk_key".to_string()), Some("tiny".to_string()));
    match on.plan_reply("hello", &[]) {
        ReplyPlan::Request { authorization, body } => {
            assert_eq!(authorization, "Bearer gsk_key");
            let Json::Obj(entries) = body else { panic!("object") };
            assert_eq!(entries.len(), 3);
            assert_eq!(entries[0].0, "model");
            assert!(matches!(&entries[0].1, Json::Str(m) if m == "tiny"));
            assert_eq!(entries[1].0, "max_tokens");
            assert!(matches!(entries[1].1, Json::Int(1024)));
            let Json::Arr(msgs) = &entries[2].1 else { panic!("messages") };
            assert_eq!(msgs.len(), 2);
            let Json::Obj(sys) = &msgs[0] else { panic!("system") };
            assert!(matches!(&sys[0].1, Json::Str(r) if r == "system"));
            assert!(matches!(&sys[1].1, Json::Str(c) if *c == format!("{PREAMBLE}(no relevant past memories)\n")));
            let Json::Obj(user) = &msgs[1] else { panic!("user") };
            assert!(matches!(&user[0].1, Json::Str(r) if r == "user"));
            assert!(matches!(&user[1].1, Json::Str(c) if c == "hello"));
        }
        _ => panic!("expected request"),
    }
}

#[test]
fn read_reply_cases() {
    assert!(matches!(Llm::read_reply(200, None, Some("  Hi there \n")), Ok(t) if t == "Hi there"));
    assert!(matches!(Llm::read_reply(200, None, Some("   ")), Ok(t) if t == "[empty response]"));
    assert!(matches!(Llm::read_reply(204, None, None), Ok(t) if t == "[empty response]"));
    match Llm::read_reply(429, Some("rate limited"), None) {
        Err(LlmError::Api { status, message }) => {
            assert_eq!(status, 429);
            assert_eq!(message, "rate limited");
        }
        _ => panic!("expected error"),
    }
    match Llm::read_reply(500, None, Some("ignored")) {
        Err(LlmError::Api { status, message }) => {
            assert_eq!(status, 500);
            assert_eq!(message, "unknown error");
        }
        _ => panic!("expected error"),
    }
    assert!(Llm::read_reply(199, None, Some("x")).is_err());
    assert!(Llm::read_reply(300, None, Some("x")).is_err());
}

fn from_value(v: &Value) -> Json {
    match v {
        Value::Null => Json::Null,
        Value::Bool(b) => Json::Bool(*b),
        Value::Number(n) => match n.as_i64() {
            Some(i) => Json::Int(i),
            None => Json::Real(n.to_string()),
        },
        Value::String(s) => Json::Str(s.clone()),
        Value::Array(items) => Json::Arr(items.iter().map(from_value).collect()),
        Value::Object(m) => Json::Obj(m.iter().map(|(k, v)| (k.clone(), from_value(v))).collect()),
    }
}

fn answer(text: &str) -> Json {
    from_value(&serde_json::from_str(text).unwrap())
}

#[test]
fn read_answer_cases() {
    let ok = answer(r#"{"choices": [{"message": {"role": "assistant", "content": "  Hello! "}}]}"#);
    assert!(matches!(Llm::read_answer(200, &ok), Ok(t) if t == "Hello!"));
    let empty = answer(r#"{"choices": []}"#);
    assert!(matches!(Llm::read_answer(200, &empty), Ok(t) if t == "[empty response]"));
    let err = answer(r#"{"error": {"message": "Invalid API Key", "type": "invalid_request_error"}}"#);
    match Llm::read_answer(401, &err) {
        Err(LlmError::Api { status, message }) => {
            assert_eq!(status, 401);
            assert_eq!(message, "Invalid API Key");
        }
        _ => panic!("expected error"),
    }
    match Llm::read_answer(503, &answer("{}")) {
        Err(LlmError::Api { message, .. }) => assert_eq!(message, "unknown error"),
        _ => panic!("expected error"),
    }
}
