use hex_mem_mcp::helix::steps;
use hex_mem_mcp::json::Json;

fn to_value(j: &Json) -> serde_json::Value {
    match j {
        Json::Null => serde_json::Value::Null,
        Json::Bool(b) => serde_json::Value::Bool(*b),
        Json::Int(i) => serde_json::Value::from(*i),
        Json::UInt(u) => serde_json::Value::from(*u),
        Json::Float(bits) => serde_json::Value::from(f64::from_bits(*bits)),
        Json::Str(s) => serde_json::Value::String(s.clone()),
        Json::Array(items) => serde_json::Value::Array(items.iter().map(to_value).collect()),
        Json::Object(members) => serde_json::Value::Object(
            members.iter().map(|(k, v)| (k.clone(), to_value(v))).collect(),
        ),
    }
}

fn bits(v: &[f32]) -> Vec<u64> {
    v.iter().map(|f| (*f as f64).to_bits()).collect()
}

fn eq_pred(property: &str, value: &str) -> Json {
    Json::obj1(
        "eq",
        Json::obj2(
            "left",
            Json::obj1("property", Json::string(property)),
            "right",
            Json::obj1("constant", Json::obj1("string", Json::string(value))),
        ),
    )
}

fn path<'a>(j: &'a Json, keys: &[&str]) -> Option<&'a Json> {
    let mut cur = j;
    for k in keys {
        cur = cur.get(k)?;
    }
    Some(cur)
}

#[test]
fn vector_search_always_scopes_to_agent() {
    let root = steps::vector_search("Memory", "embedding", &bits(&[0.1, 0.2]), 5, "agent-a", None);
    let scoped = root.get("vector_search_nodes_within").expect("must use scoped search");
    assert!(matches!(scoped, Json::Object(_)), "must use scoped search: {root:?}");
    assert_eq!(
        path(scoped, &["input", "nodes_where", "predicate"]),
        Some(&eq_pred("agent_id", "agent-a")),
    );
}

#[test]
fn vector_search_ands_namespace_within_agent() {
    let root = steps::vector_search(
        "Memory",
        "embedding",
        &bits(&[0.1, 0.2]),
        5,
        "agent-a",
        Some("proj"),
    );
    let predicate = path(&root, &["vector_search_nodes_within", "input", "nodes_where", "predicate"])
        .unwrap();
    let predicates = path(predicate, &["and", "predicates"])
        .and_then(|p| p.as_array())
        .expect("namespace filter must AND with the agent filter");
    assert_eq!(predicates.len(), 2);
    let const_str = |p: &Json| path(p, &["eq", "right", "constant", "string"]).and_then(|s| s.as_str()).map(|s| s.to_string());
    assert!(predicates.iter().any(|p| const_str(p) == Some("agent-a".to_string())));
    assert!(predicates.iter().any(|p| const_str(p) == Some("proj".to_string())));
}

#[test]
fn count_scopes_to_agent() {
    let root = steps::count("Memory", "agent-a", Some("proj"));
    let predicates = path(&root, &["count", "input", "nodes_where", "predicate", "and", "predicates"])
        .and_then(|p| p.as_array())
        .expect("count must filter by label, agent and namespace");
    let flat: Vec<String> = predicates.iter().map(|p| to_value(p).to_string()).collect();
    assert!(flat.iter().any(|p| p.contains("agent-a")), "{flat:?}");
    assert!(flat.iter().any(|p| p.contains("\"proj\"")), "{flat:?}");
}

#[test]
fn node_props_targets_single_id() {
    let root = steps::node_props(42, &["agent_id"]);
    assert_eq!(
        path(&root, &["value_map", "input", "nodes", "reference", "ids"]),
        Some(&Json::arr1(Json::UInt(42))),
    );
    assert_eq!(
        path(&root, &["value_map", "properties"]),
        Some(&Json::arr1(Json::string("agent_id"))),
    );
}
