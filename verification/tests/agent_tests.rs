use helix_agent::agent::{Agent, ThreadWalk, TurnAction, TurnEvent, RECALL_K, THREAD_LIMIT};
use helix_agent::db::{HelixClient, MemoryHit, MemoryRow};
use helix_agent::embed::embed_counts;
use helix_agent::llm::Llm;

fn agent() -> Agent {
    Agent::new(HelixClient::new("http://localhost:6969"), Llm::new(None, None))
}

fn hit(id: i64, text: &str) -> MemoryHit {
    MemoryHit {
        id,
        distance: "0.125".to_string(),
        role: "user".to_string(),
        text: text.to_string(),
        ts: "000000000000001".to_string(),
    }
}

/// Runs one turn whose I/O answers with the given ids, collecting the actions.
fn run_turn(agent: &mut Agent, msg: &str, reply: &str, user_id: i64, bot_id: i64) -> Vec<String> {
    let (mut turn, mut action) = agent.start_turn(msg);
    let mut log = Vec::new();
    let mut stores = 0;
    loop {
        let event = match action {
            TurnAction::Search { query, k } => {
                assert_eq!(query, embed_counts(msg));
                assert_eq!(k, RECALL_K);
                log.push("search".to_string());
                TurnEvent::Recalled(vec![hit(1, "earlier")])
            }
            TurnAction::Respond { user_msg, recalled } => {
                assert_eq!(user_msg, msg);
                assert_eq!(recalled.len(), 1);
                log.push("respond".to_string());
                TurnEvent::Replied(reply.to_string())
            }
            TurnAction::Store { role, text, embedding } => {
                assert_eq!(embedding, embed_counts(&text));
                log.push(format!("store {role}: {text}"));
                stores += 1;
                TurnEvent::Stored(if stores == 1 { user_id } else { bot_id })
            }
            TurnAction::Link { from_id, to_id } => {
                log.push(format!("link {from_id}->{to_id}"));
                TurnEvent::Linked
            }
            TurnAction::Finish { reply: r } => {
                log.push(format!("finish {r}"));
                break;
            }
            TurnAction::Unexpected => panic!("unexpected"),
        };
        action = agent.step_turn(&mut turn, event);
    }
    log
}

#[test]
fn first_turn_links_message_to_reply() {
    let mut a = agent();
    assert_eq!(a.last_id(), None);
    let log = run_turn(&mut a, "I like Rust", "Noted.", 10, 11);
    assert_eq!(
        log,
        vec![
            "search",
            "respond",
            "store user: I like Rust",
            "store assistant: Noted.",
            "link 10->11",
            "finish Noted.",
        ]
    );
    assert_eq!(a.last_id(), Some(11));
}

#[test]
fn second_turn_chains_onto_the_first() {
    let mut a = agent();
    run_turn(&mut a, "hi", "hello", 10, 11);
    let log = run_turn(&mut a, "again", "sure", 12, 13);
    assert_eq!(
        log,
        vec![
            "search",
            "respond",
            "store user: again",
            "store assistant: sure",
            "link 11->12",
            "link 12->13",
            "finish sure",
        ]
    );
    assert_eq!(a.last_id(), Some(13));
}

#[test]
fn unexpected_event_abandons_turn_and_keeps_last_id() {
    let mut a = agent();
    run_turn(&mut a, "hi", "hello", 10, 11);
    let (mut turn, _) = a.start_turn("x");
    let act = a.step_turn(&mut turn, TurnEvent::Linked);
    assert!(matches!(act, TurnAction::Unexpected));
    let act = a.step_turn(&mut turn, TurnEvent::Recalled(vec![]));
    assert!(matches!(act, TurnAction::Unexpected));
    assert_eq!(a.last_id(), Some(11));
}

#[test]
fn agent_keeps_its_parts() {
    let a = agent();
    assert_eq!(a.db().endpoint(), "http://localhost:6969/v1/query");
    assert!(!a.llm().online());
}

fn row(id: i64, text: &str) -> MemoryRow {
    MemoryRow { id, role: "assistant".to_string(), text: text.to_string(), ts: "0".to_string() }
}

#[test]
fn thread_follows_first_next_row() {
    let a = agent();
    let mut walk = a.start_thread(0);
    let mut asked = Vec::new();
    while let Some(id) = walk.next_query() {
        asked.push(id);
        let rows = match id {
            0 => vec![row(5, "first"), row(9, "other")],
            5 => vec![row(6, "second\nline")],
            _ => vec![],
        };
        walk.advance(rows);
    }
    assert_eq!(asked, vec![0, 5, 6]);
    let lines = walk.into_lines();
    assert_eq!(
        lines,
        vec![
            ("assistant".to_string(), "first".to_string()),
            ("assistant".to_string(), "second\nline".to_string())
        ]
    );
}

#[test]
fn thread_walk_stops_on_cycles() {
    let mut walk = ThreadWalk::new(1);
    let mut rounds = 0;
    while let Some(id) = walk.next_query() {
        rounds += 1;
        walk.advance(vec![row(if id == 1 { 2 } else { 1 }, "loop")]);
    }
    assert_eq!(rounds, THREAD_LIMIT);
    assert_eq!(walk.into_lines().len(), THREAD_LIMIT);
}

#[test]
fn thread_with_no_edges_is_empty() {
    let mut walk = ThreadWalk::new(42);
    assert_eq!(walk.next_query(), Some(42));
    walk.advance(vec![]);
    assert_eq!(walk.next_query(), None);
    assert!(walk.into_lines().is_empty());
}
