use helix_agent::db::{check_status, returned_count, returned_id, DbError, HelixClient};
use helix_agent::json::Json;
use serde_json::Value;

/// Writes a library JSON value as serde_json does; an embedding becomes the
/// unit-length f32 vector of its counts.
fn to_value(j: &Json) -> Value {
    match j {
        Json::Null => Value::Null,
        Json::Bool(b) => Value::Bool(*b),
        Json::Int(i) => Value::from(*i),
        Json::Real(t) => serde_json::from_str(t).unwrap(),
        Json::Str(s) => Value::String(s.clone()),
        Json::Arr(v) => Value::Array(v.iter().map(to_value).collect()),
        Json::Obj(entries) => {
            let mut m = serde_json::Map::new();
            for (k, v) in entries {
                m.insert(k.clone(), to_value(v));
            }
            Value::Object(m)
        }
        Json::Embedding(counts) => {
            let v: Vec<f32> = counts.iter().map(|c| *c as f32).collect();
            let norm = v.iter().map(|x| x * x).sum::<f32>().sqrt();
            let v: Vec<f32> = if norm > 0.0 { v.iter().map(|x| x / norm).collect() } else { v };
            Value::from(v)
        }
    }
}

fn parse(text: &str) -> Value {
    serde_json::from_str(text).unwrap()
}

#[test]
fn endpoint_drops_trailing_slashes() {
    assert_eq!(HelixClient::new("http://localhost:6969").endpoint(), "http://localhost:6969/v1/query");
    assert_eq!(HelixClient::new("http://localhost:6969//").endpoint(), "http://localhost:6969/v1/query");
    assert_eq!(HelixClient::new("").endpoint(), "/v1/query");
}

#[test]
fn vector_index_body() {
    let db = HelixClient::new("http://x");
    let expected = parse(r#"{
        "request_type": "write",
        "query_name": null,
        "query": {
            "queries": [{ "Query": {
                "name": "idx",
                "steps": [{ "CreateIndex": {
                    "spec": { "NodeVector": { "label": "Memory", "property": "embedding" } },
                    "if_not_exists": true
                }}],
                "condition": null
            }}],
            "returns": ["idx"]
        }
    }"#);
    assert_eq!(to_value(&db.vector_index_request()), expected);
}

#[test]
fn add_memory_body() {
    let db = HelixClient::new("http://x");
    let mut counts = vec![0i128; 4];
    counts[1] = 3;
    counts[3] = -4;
    let body = to_value(&db.add_memory_request("user", "hi \"there\"", &counts, "000000000000042"));
    let expected = parse(r#"{
        "request_type": "write",
        "query_name": null,
        "query": {
            "queries": [{ "Query": {
                "name": "m",
                "steps": [
                    { "AddN": { "label": "Memory", "properties": [
                        ["role",      { "Expr": { "Param": "role" } }],
                        ["text",      { "Expr": { "Param": "text" } }],
                        ["embedding", { "Expr": { "Param": "embedding" } }],
                        ["ts",        { "Expr": { "Param": "ts" } }]
                    ]}},
                    { "Project": [{ "source": "$id", "alias": "id" }] }
                ],
                "condition": null
            }}],
            "returns": ["m"]
        },
        "parameters": { "role": "user", "text": "hi \"there\"", "embedding": [0.0, 0.6, 0.0, -0.8], "ts": "000000000000042" },
        "parameter_types": {
            "role": "String", "text": "String",
            "embedding": { "Array": "F32" }, "ts": "String"
        }
    }"#);
    assert_eq!(body["query"], expected["query"]);
    assert_eq!(body["parameter_types"], expected["parameter_types"]);
    assert_eq!(body["parameters"]["role"], "user");
    assert_eq!(body["parameters"]["text"], "hi \"there\"");
    let emb: Vec<f64> = body["parameters"]["embedding"].as_array().unwrap().iter().map(|v| v.as_f64().unwrap()).collect();
    let want = [0.0, 0.6, 0.0, -0.8];
    for (a, b) in emb.iter().zip(want.iter()) {
        assert!((a - b).abs() < 1e-6);
    }
}

#[test]
fn search_body() {
    let db = HelixClient::new("http://x");
    let counts = vec![0i128; 3];
    let body = to_value(&db.search_request(&counts, 5));
    let expected = parse(r#"{
        "request_type": "read",
        "query_name": null,
        "query": {
            "queries": [{ "Query": {
                "name": "hits",
                "steps": [
                    { "VectorSearchNodes": {
                        "label": "Memory", "property": "embedding",
                        "query_vector": { "Expr": { "Param": "query_vector" } },
                        "k": { "Expr": { "Param": "k" } }
                    }},
                    { "Project": [
                        { "source": "$id",       "alias": "id" },
                        { "source": "$distance", "alias": "distance" },
                        { "source": "role",      "alias": "role" },
                        { "source": "text",      "alias": "text" },
                        { "source": "ts",        "alias": "ts" }
                    ]}
                ],
                "condition": null
            }}],
            "returns": ["hits"]
        },
        "parameters": { "query_vector": [0.0, 0.0, 0.0], "k": 5 },
        "parameter_types": { "query_vector": { "Array": "F32" }, "k": "I64" }
    }"#);
    assert_eq!(body, expected);
}

#[test]
fn edge_bodies() {
    let db = HelixClient::new("http://x");
    let expected = parse(r#"{
        "request_type": "write",
        "query_name": null,
        "query": {
            "queries": [{ "Query": {
                "name": "e",
                "steps": [
                    { "N": { "Param": "from_id" } },
                    { "AddE": { "label": "HAS", "to": { "Param": "to_id" }, "properties": [] } }
                ],
                "condition": null
            }}],
            "returns": ["e"]
        },
        "parameters": { "from_id": 3, "to_id": 9 },
        "parameter_types": { "from_id": "I64", "to_id": "I64" }
    }"#);
    assert_eq!(to_value(&db.add_edge_request(3, 9, "HAS")), expected);
    let link = to_value(&db.link_memories_request(3, 9));
    assert_eq!(link["query"]["queries"][0]["Query"]["steps"][1]["AddE"]["label"], "NEXT");
    assert_eq!(link["parameters"], expected["parameters"]);
}

#[test]
fn entity_bodies() {
    let db = HelixClient::new("http://x");
    let index = parse(r#"{
        "request_type": "write",
        "query_name": null,
        "query": {
            "queries": [{ "Query": {
                "name": "ix",
                "steps": [{ "CreateIndex": {
                    "spec": { "NodeEquality": { "label": "Entity", "property": "name", "unique": true } },
                    "if_not_exists": true
                }}],
                "condition": null
            }}],
            "returns": ["ix"]
        }
    }"#);
    assert_eq!(to_value(&db.entity_index_request()), index);
    let find = parse(r#"{
        "request_type": "read",
        "query_name": null,
        "query": {
            "queries": [{ "Query": {
                "name": "e",
                "steps": [
                    { "NWhere": { "Eq": ["$label", { "String": "Entity" }] } },
                    { "Where": { "EqExpr": ["name", { "Param": "name" }] } },
                    { "Project": [{ "source": "$id", "alias": "id" }] }
                ],
                "condition": null
            }}],
            "returns": ["e"]
        },
        "parameters": { "name": "user" },
        "parameter_types": { "name": "String" }
    }"#);
    assert_eq!(to_value(&db.find_entity_request("user")), find);
    let add = parse(r#"{
        "request_type": "write",
        "query_name": null,
        "query": {
            "queries": [{ "Query": {
                "name": "e",
                "steps": [
                    { "AddN": { "label": "Entity", "properties": [["name", { "Expr": { "Param": "name" } }]] } },
                    { "Project": [{ "source": "$id", "alias": "id" }] }
                ],
                "condition": null
            }}],
            "returns": ["e"]
        },
        "parameters": { "name": "tuna" },
        "parameter_types": { "name": "String" }
    }"#);
    assert_eq!(to_value(&db.add_entity_request("tuna")), add);
}

#[test]
fn statement_and_facts_bodies() {
    let db = HelixClient::new("http://x");
    let stmt = parse(r#"{
        "request_type": "write",
        "query_name": null,
        "query": {
            "queries": [{ "Query": {
                "name": "s",
                "steps": [
                    { "AddN": { "label": "Statement", "properties": [
                        ["predicate", { "Expr": { "Param": "predicate" } }],
                        ["object", { "Expr": { "Param": "object" } }]
                    ]}},
                    { "Project": [{ "source": "$id", "alias": "id" }] }
                ],
                "condition": null
            }}],
            "returns": ["s"]
        },
        "parameters": { "predicate": "OWNS", "object": "a cat named tuna" },
        "parameter_types": { "predicate": "String", "object": "String" }
    }"#);
    assert_eq!(to_value(&db.add_statement_request("OWNS", "a cat named tuna")), stmt);
    let facts = parse(r#"{
        "request_type": "read",
        "query_name": null,
        "query": {
            "queries": [{ "Query": {
                "name": "f",
                "steps": [
                    { "NWhere": { "Eq": ["$label", { "String": "Entity" }] } },
                    { "Where": { "EqExpr": ["name", { "Param": "name" }] } },
                    { "Out": "HAS" },
                    { "ValueMap": ["predicate", "object"] }
                ],
                "condition": null
            }}],
            "returns": ["f"]
        },
        "parameters": { "name": "user" },
        "parameter_types": { "name": "String" }
    }"#);
    assert_eq!(to_value(&db.facts_request("user")), facts);
}

#[test]
fn next_and_count_bodies() {
    let db = HelixClient::new("http://x");
    let next = parse(r#"{
        "request_type": "read",
        "query_name": null,
        "query": {
            "queries": [{ "Query": {
                "name": "nxt",
                "steps": [
                    { "N": { "Param": "id" } },
                    { "Out": "NEXT" },
                    { "ValueMap": ["$id", "role", "text", "ts"] }
                ],
                "condition": null
            }}],
            "returns": ["nxt"]
        },
        "parameters": { "id": -7 },
        "parameter_types": { "id": "I64" }
    }"#);
    assert_eq!(to_value(&db.next_request(-7)), next);
    let count = parse(r#"{
        "request_type": "read",
        "query_name": null,
        "query": {
            "queries": [{ "Query": {
                "name": "c",
                "steps": [
                    { "NWhere": { "Eq": ["$label", { "String": "Memory" }] } },
                    "Count"
                ],
                "condition": null
            }}],
            "returns": ["c"]
        }
    }"#);
    assert_eq!(to_value(&db.count_request()), count);
}

fn from_value(v: &Value) -> Json {
    match v {
        Value::Null => Json::Null,
        Value::Bool(b) => Json::Bool(*b),
        Value::Number(n) => match n.as_i64() {
            Some(i) => Json::Int(i),
            None => Json::Real(n.to_string()),
        },
        Value::String(s) => Json::Str(s.clone()),
        Value::Array(items) => Json::Arr(items.iter().map(from_value).collect()),
        Value::Object(m) => Json::Obj(m.iter().map(|(k, v)| (k.clone(), from_value(v))).collect()),
    }
}

#[test]
fn ids_and_counts_from_answers() {
    let answer = from_value(&parse(r#"{"m": {"properties": [{"id": 42}, {"id": 7}]}}"#));
    assert_eq!(returned_id(&answer, "m"), Some(42));
    assert_eq!(returned_id(&answer, "e"), None);
    let no_rows = from_value(&parse(r#"{"e": {"properties": []}}"#));
    assert_eq!(returned_id(&no_rows, "e"), None);
    let not_int = from_value(&parse(r#"{"s": {"properties": [{"id": 1.5}]}}"#));
    assert_eq!(returned_id(&not_int, "s"), None);
    let not_obj = from_value(&parse(r#"[1, 2]"#));
    assert_eq!(returned_id(&not_obj, "m"), None);
    assert_eq!(returned_count(&from_value(&parse(r#"{"c": {"count": 17}}"#))), 17);
    assert_eq!(returned_count(&from_value(&parse(r#"{"c": {}}"#))), 0);
    assert_eq!(returned_count(&from_value(&parse(r#"{"c": {"count": "x"}}"#))), 0);
}

#[test]
fn answer_status() {
    assert!(matches!(check_status(200, "{}".to_string()), Ok(t) if t == "{}"));
    assert!(matches!(check_status(299, "x".to_string()), Ok(t) if t == "x"));
    match check_status(500, "boom".to_string()) {
        Err(DbError::Status { status, body }) => {
            assert_eq!(status, 500);
            assert_eq!(body, "boom");
        }
        _ => panic!("expected error"),
    }
    assert!(check_status(404, String::new()).is_err());
}
