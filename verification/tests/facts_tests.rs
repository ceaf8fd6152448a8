use helix_agent::facts::{EntityUpsert, FactAction, FactEvent, FactPlan, ABOUT, HAS};

fn describe(a: &FactAction) -> String {
    match a {
        FactAction::FindEntity(n) => format!("find {n}"),
        FactAction::AddEntity(n) => format!("add {n}"),
        FactAction::AddStatement { predicate, object } => format!("stmt {predicate} {object}"),
        FactAction::AddEdge { from_id, to_id, label } => format!("edge {from_id} {label} {to_id}"),
        FactAction::Finished(id) => format!("finished {id}"),
        FactAction::Stored => "stored".to_string(),
        FactAction::Unexpected => "unexpected".to_string(),
    }
}

#[test]
fn upsert_found_entity_is_not_added() {
    let (mut u, a) = EntityUpsert::new("user");
    assert_eq!(describe(&a), "find user");
    assert_eq!(describe(&u.step(FactEvent::Found(Some(7)))), "finished 7");
}

#[test]
fn upsert_missing_entity_is_added() {
    let (mut u, _) = EntityUpsert::new("tuna");
    assert_eq!(describe(&u.step(FactEvent::Found(None))), "add tuna");
    assert_eq!(describe(&u.step(FactEvent::Added(9))), "finished 9");
    assert_eq!(describe(&u.step(FactEvent::Added(9))), "unexpected");
}

#[test]
fn fact_with_new_subject_and_known_object() {
    let (mut p, a) = FactPlan::new("user", "OWNS", "a cat named tuna");
    let mut log = vec![describe(&a)];
    for ev in [
        FactEvent::Found(None),
        FactEvent::Added(1),
        FactEvent::Found(Some(2)),
        FactEvent::Added(3),
        FactEvent::Linked,
        FactEvent::Linked,
    ] {
        log.push(describe(&p.step(ev)));
    }
    assert_eq!(
        log,
        vec![
            "find user",
            "add user",
            "find a cat named tuna",
            "stmt OWNS a cat named tuna",
            "edge 1 HAS 3",
            "edge 3 ABOUT 2",
            "stored",
        ]
    );
    assert_eq!(HAS, "HAS");
    assert_eq!(ABOUT, "ABOUT");
}

#[test]
fn fact_with_known_subject_and_new_object() {
    let (mut p, _) = FactPlan::new("user", "LIVES_IN", "Pune");
    let mut log = Vec::new();
    for ev in [
        FactEvent::Found(Some(4)),
        FactEvent::Found(None),
        FactEvent::Added(5),
        FactEvent::Added(6),
        FactEvent::Linked,
        FactEvent::Linked,
    ] {
        log.push(describe(&p.step(ev)));
    }
    assert_eq!(
        log,
        vec!["find Pune", "add Pune", "stmt LIVES_IN Pune", "edge 4 HAS 6", "edge 6 ABOUT 5", "stored"]
    );
}
