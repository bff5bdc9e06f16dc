use hex_mem_mcp::embed::{EmbedError, Embedder};
use hex_mem_mcp::helix::steps;
use hex_mem_mcp::helix::{is_success, prop_f32, prop_f32_array, prop_i64, prop_string, HelixClient, HelixError};
use hex_mem_mcp::json::Json;
use hex_mem_mcp::memory::{
    forget_outcome, forget_query, owner_query, plan_forget, plan_recall, plan_stats, plan_store,
    recall_outcome, recall_query, require_agent_id, stats_outcome, stats_query, store_outcome,
    store_query, ForgetArgs, RecallArgs, StatsArgs, StoreArgs, ToolError,
};
use hex_mem_mcp::startup::{after_index_probe, contains, index_dimension, ProbeAction, ProbeVectorError};
use hex_mem_mcp::text::{join, strip_end_char, trim};

fn s(x: &str) -> String {
    x.to_string()
}

fn eq_predicate(property: &str, value: &str) -> Json {
    Json::obj1(
        "eq",
        Json::obj2(
            "left",
            Json::obj1("property", Json::string(property)),
            "right",
            Json::obj1("constant", Json::obj1("string", Json::string(value))),
        ),
    )
}

fn prop(kind: &str, v: Json) -> Json {
    Json::obj1("value", Json::obj1(kind, v))
}

fn store_args(agent: &str, text: &str) -> StoreArgs {
    StoreArgs { agent_id: s(agent), text: s(text), namespace: None, importance: None, tags: None }
}

fn recall_args(agent: &str, query: &str, namespace: Option<&str>, top_k: Option<u32>) -> RecallArgs {
    RecallArgs { agent_id: s(agent), query: s(query), namespace: namespace.map(s), top_k }
}

#[test]
fn object_lookup_reads_last_occurrence() {
    let doc = Json::Object(vec![(s("a"), Json::UInt(1)), (s("b"), Json::UInt(2)), (s("a"), Json::UInt(3))]);
    assert_eq!(doc.get("a"), Some(&Json::UInt(3)));
    assert_eq!(doc.get("b"), Some(&Json::UInt(2)));
    assert_eq!(doc.get("c"), None);
    assert_eq!(Json::UInt(1).get("a"), None);
}

#[test]
fn number_and_string_readers() {
    assert_eq!(Json::Int(7).as_u64(), Some(7));
    assert_eq!(Json::Int(-7).as_u64(), None);
    assert_eq!(Json::UInt(u64::MAX).as_u64(), Some(u64::MAX));
    assert_eq!(Json::Float(1.0f64.to_bits()).as_u64(), None);
    assert_eq!(Json::string("x").as_str(), Some("x"));
    assert_eq!(Json::UInt(1).as_str(), None);
    assert!(Json::Null.as_array().is_none());
}

#[test]
fn copy_keeps_document() {
    let doc = Json::obj2("k", Json::arr2(Json::Null, Json::Bool(true)), "n", Json::Int(-3));
    assert_eq!(doc.copy(), doc);
}

#[test]
fn trim_removes_unicode_white_space() {
    assert_eq!(trim(" \t\u{3000}agent a\u{2028}\n"), "agent a");
    assert_eq!(trim("   "), "");
    assert_eq!(trim("x"), "x");
    assert_eq!(trim(&trim("  y  ")), trim("  y  "));
}

#[test]
fn strip_end_removes_trailing_slashes_only() {
    assert_eq!(strip_end_char("http://h:1//", '/'), "http://h:1");
    assert_eq!(strip_end_char("http://h:1", '/'), "http://h:1");
    assert_eq!(strip_end_char("///", '/'), "");
    assert_eq!(strip_end_char(&strip_end_char("a/", '/'), '/'), "a");
}

#[test]
fn join_puts_separator_between_parts() {
    assert_eq!(join(&vec![s("a"), s("b"), s("c")], ","), "a,b,c");
    assert_eq!(join(&vec![s("a")], ","), "a");
    assert_eq!(join(&vec![], ","), "");
}

#[test]
fn property_encodings() {
    assert_eq!(prop_string("t"), prop("string", Json::string("t")));
    assert_eq!(prop_i64(-5), prop("i64", Json::Int(-5)));
    assert_eq!(prop_f32(0.5f64.to_bits()), prop("f32", Json::Float(0.5f64.to_bits())));
    assert_eq!(
        prop_f32_array(&[1.0f64.to_bits(), 2.0f64.to_bits()]),
        prop("f32_array", Json::arr2(Json::Float(1.0f64.to_bits()), Json::Float(2.0f64.to_bits()))),
    );
}

#[test]
fn vector_index_step() {
    let expected = Json::obj1(
        "create_index",
        Json::obj2(
            "spec",
            Json::obj1(
                "node_vector",
                Json::obj4(
                    "label",
                    Json::string("Memory"),
                    "property",
                    Json::string("embedding"),
                    "dimension",
                    Json::UInt(1024),
                    "metric",
                    Json::string("cosine"),
                ),
            ),
            "if_not_exists",
            Json::Bool(true),
        ),
    );
    assert_eq!(steps::create_vector_index("Memory", "embedding", 1024, "cosine"), expected);
}

#[test]
fn add_node_lists_properties_as_pairs() {
    let root = steps::add_node("Memory", vec![(s("a"), Json::UInt(1)), (s("b"), Json::Null)]);
    let expected = Json::obj1(
        "add_n",
        Json::obj2(
            "label",
            Json::string("Memory"),
            "properties",
            Json::arr2(Json::arr2(Json::string("a"), Json::UInt(1)), Json::arr2(Json::string("b"), Json::Null)),
        ),
    );
    assert_eq!(root, expected);
}

#[test]
fn drop_and_value_map_steps() {
    let nodes = Json::obj1("nodes", Json::obj1("reference", Json::obj1("ids", Json::arr1(Json::UInt(9)))));
    assert_eq!(steps::drop_by_id(9), Json::obj1("drop", Json::obj1("input", nodes.copy())));
    assert_eq!(
        steps::value_map(Json::Null, &["x", "y"]),
        Json::obj1(
            "value_map",
            Json::obj2("input", Json::Null, "properties", Json::arr2(Json::string("x"), Json::string("y"))),
        ),
    );
}

#[test]
fn count_without_namespace_filters_label_and_agent() {
    let root = steps::count("Memory", "agent-a", None);
    let predicates = Json::arr2(eq_predicate("$label", "Memory"), eq_predicate("agent_id", "agent-a"));
    let expected = Json::obj1(
        "count",
        Json::obj1(
            "input",
            Json::obj1("nodes_where", Json::obj1("predicate", Json::obj1("and", Json::obj1("predicates", predicates)))),
        ),
    );
    assert_eq!(root, expected);
}

#[test]
fn vector_search_carries_vector_and_limit() {
    let root = steps::vector_search("Memory", "embedding", &[3.0f64.to_bits()], 7, "a", None);
    let inner = root.get("vector_search_nodes_within").unwrap();
    assert_eq!(inner.get("k"), Some(&Json::obj1("literal", Json::UInt(7))));
    assert_eq!(inner.get("label"), Some(&Json::string("Memory")));
    assert_eq!(inner.get("property"), Some(&Json::string("embedding")));
    assert_eq!(inner.get("query_vector"), Some(&prop_f32_array(&[3.0f64.to_bits()])));
}

#[test]
fn helix_client_urls_and_body() {
    let c = HelixClient::new("http://127.0.0.1:6969//");
    assert_eq!(c.health_url(), "http://127.0.0.1:6969/healthz");
    assert_eq!(c.query_url(), "http://127.0.0.1:6969/v2/query");
    let body = HelixClient::query_body("hits", "read", Json::Null);
    let entry = Json::obj1("query", Json::obj2("name", Json::string("hits"), "root", Json::Null));
    let batch = Json::obj2("entries", Json::arr1(entry), "returns", Json::arr1(Json::string("hits")));
    let expected = Json::obj3(
        "request_type",
        Json::string("read"),
        "query_name",
        Json::string("hits"),
        "query",
        Json::obj1("read", batch),
    );
    assert_eq!(body, expected);
}

#[test]
fn helix_status_verdicts() {
    assert!(!is_success(199));
    assert!(is_success(200));
    assert!(is_success(299));
    assert!(!is_success(300));
    let c = HelixClient::new("http://h");
    assert_eq!(c.health(204), Ok(()));
    assert_eq!(c.health(503), Err(HelixError::Unhealthy(503)));
    assert_eq!(HelixClient::query_reply("q", 200, s("{}")), Ok(s("{}")));
    assert_eq!(
        HelixClient::query_reply("q", 500, s("boom")),
        Err(HelixError::QueryFailed { name: s("q"), status: 500, body: s("boom") }),
    );
}

#[test]
fn embedder_request() {
    let e = Embedder::new("http://h/v1/", "m", "");
    assert_eq!(e.embeddings_url(), "http://h/v1/embeddings");
    assert_eq!(e.bearer_token(), None);
    assert_eq!(Embedder::new("http://h", "m", "key").bearer_token(), Some("key"));
    assert_eq!(
        e.request_body(&[s("a"), s("b")]),
        Json::obj2("model", Json::string("m"), "input", Json::arr2(Json::string("a"), Json::string("b"))),
    );
}

#[test]
fn embedding_reply_verdicts() {
    let item = |v: Json| Json::obj1("embedding", v);
    let good = Json::obj1(
        "data",
        Json::arr2(
            item(Json::arr2(Json::UInt(1), Json::Float(0.5f64.to_bits()))),
            item(Json::Array(vec![])),
        ),
    );
    assert_eq!(
        Embedder::vectors(200, &good),
        Ok(vec![vec![Json::UInt(1), Json::Float(0.5f64.to_bits())], vec![]]),
    );
    assert_eq!(Embedder::vectors(401, &good), Err(EmbedError::Failed(401)));
    assert_eq!(Embedder::vectors(200, &Json::obj1("other", Json::Null)), Err(EmbedError::NoData));
    assert_eq!(Embedder::vectors(200, &Json::obj1("data", Json::Null)), Err(EmbedError::NoData));
    let missing = Json::obj1("data", Json::arr1(Json::obj1("index", Json::UInt(0))));
    assert_eq!(Embedder::vectors(200, &missing), Err(EmbedError::BadVector));
    let not_number = Json::obj1("data", Json::arr1(item(Json::arr1(Json::string("x")))));
    assert_eq!(Embedder::vectors(200, &not_number), Err(EmbedError::BadVector));
}

#[test]
fn accepted_agent_id_is_stable() {
    let once = require_agent_id("\t agent-b  ").unwrap();
    assert_eq!(require_agent_id(&once).unwrap(), once);
}

#[test]
fn store_refusals_and_defaults() {
    assert_eq!(plan_store(&store_args("a", " \n ")), Err(ToolError::EmptyText));
    assert_eq!(plan_store(&store_args("  ", "fact")), Err(ToolError::EmptyAgentId));
    let plan = plan_store(&store_args(" a ", "fact")).unwrap();
    assert_eq!(plan.agent_id, "a");
    assert_eq!(plan.namespace, "default");
    assert_eq!(plan.tags, "");
    assert_eq!(plan.text, "fact");
    let mut args = store_args("a", "fact");
    args.namespace = Some(s("proj"));
    args.tags = Some(vec![s("x"), s("y")]);
    let plan = plan_store(&args).unwrap();
    assert_eq!(plan.namespace, "proj");
    assert_eq!(plan.tags, "x,y");
}

#[test]
fn store_writes_the_memory_node() {
    let plan = plan_store(&store_args("a", "fact")).unwrap();
    assert_eq!(store_query(&plan, &vec![], 0, 0), Err(ToolError::NoEmbedding));
    let v = vec![vec![1.0f64.to_bits()], vec![2.0f64.to_bits()]];
    let q = store_query(&plan, &v, 0.5f64.to_bits(), 1700).unwrap();
    assert_eq!(q.name, "stored");
    assert_eq!(q.request_type, "write");
    let expected = steps::add_node(
        "Memory",
        vec![
            (s("text"), prop_string("fact")),
            (s("agent_id"), prop_string("a")),
            (s("namespace"), prop_string("default")),
            (s("importance"), prop_f32(0.5f64.to_bits())),
            (s("created_at"), prop_i64(1700)),
            (s("tags"), prop_string("")),
            (s("embedding"), prop_f32_array(&[1.0f64.to_bits()])),
        ],
    );
    assert_eq!(q.root, expected);
}

#[test]
fn store_answer_names_the_id() {
    let plan = plan_store(&store_args("a", "héllo")).unwrap();
    let reply = Json::obj1("stored", Json::arr1(Json::obj1("$id", Json::UInt(12))));
    assert_eq!(
        store_outcome(&plan, &reply),
        Ok(Json::obj4(
            "id",
            Json::UInt(12),
            "agent_id",
            Json::string("a"),
            "namespace",
            Json::string("default"),
            "chars",
            Json::UInt(5),
        )),
    );
    let bad = Json::obj1("stored", Json::Array(vec![]));
    assert_eq!(store_outcome(&plan, &bad), Err(ToolError::UnexpectedReply(bad.copy())));
}

#[test]
fn recall_refusals_and_limits() {
    assert_eq!(plan_recall(&recall_args("a", "  ", None, None)), Err(ToolError::EmptyQuery));
    assert_eq!(plan_recall(&recall_args("", "q", None, None)), Err(ToolError::EmptyAgentId));
    assert_eq!(plan_recall(&recall_args("a", "q", None, None)).unwrap().top_k, 5);
    assert_eq!(plan_recall(&recall_args("a", "q", None, Some(0))).unwrap().top_k, 1);
    assert_eq!(plan_recall(&recall_args("a", "q", None, Some(100))).unwrap().top_k, 50);
    assert_eq!(plan_recall(&recall_args("a", "q", None, Some(17))).unwrap().top_k, 17);
}

#[test]
fn recall_searches_only_the_agent() {
    let plan = plan_recall(&recall_args(" a ", "q", Some("proj"), Some(3))).unwrap();
    assert_eq!(recall_query(&plan, &vec![]), Err(ToolError::NoEmbedding));
    let q = recall_query(&plan, &vec![vec![1.0f64.to_bits()]]).unwrap();
    assert_eq!(q.name, "hits");
    assert_eq!(q.request_type, "read");
    let search = steps::vector_search("Memory", "embedding", &[1.0f64.to_bits()], 3, "a", Some("proj"));
    let expected = steps::value_map(search, &["$id", "agent_id", "text", "namespace", "importance", "created_at"]);
    assert_eq!(q.root, expected);
}

#[test]
fn recall_answer_summarizes_hits() {
    let plan = plan_recall(&recall_args("a", "q", None, None)).unwrap();
    let hit = Json::obj3("$id", Json::UInt(4), "text", Json::string("t"), "extra", Json::Bool(true));
    let reply = Json::obj1("hits", Json::arr1(hit));
    let summary = Json::obj6(
        "id",
        Json::UInt(4),
        "agent_id",
        Json::Null,
        "text",
        Json::string("t"),
        "namespace",
        Json::Null,
        "importance",
        Json::Null,
        "created_at",
        Json::Null,
    );
    assert_eq!(recall_outcome(&plan, &reply), Json::obj2("count", Json::UInt(1), "results", Json::arr1(summary)));
    assert_eq!(
        recall_outcome(&plan, &Json::Null),
        Json::obj2("count", Json::UInt(0), "results", Json::Array(vec![])),
    );
}

#[test]
fn recall_answer_keeps_at_most_top_k() {
    let plan = plan_recall(&recall_args("a", "q", None, Some(1))).unwrap();
    let reply = Json::obj1(
        "hits",
        Json::arr2(Json::obj1("$id", Json::UInt(1)), Json::obj1("$id", Json::UInt(2))),
    );
    let answer = recall_outcome(&plan, &reply);
    assert_eq!(answer.get("count"), Some(&Json::UInt(1)));
    let results = answer.get("results").unwrap().as_array().unwrap();
    assert_eq!(results.len(), 1);
    assert_eq!(results[0].get("id"), Some(&Json::UInt(1)));
}

#[test]
fn probe_dimension_decisions() {
    assert_eq!(index_dimension(&vec![]), Err(ProbeVectorError::NoVector));
    assert_eq!(index_dimension(&vec![vec![]]), Err(ProbeVectorError::EmptyVector));
    assert_eq!(index_dimension(&vec![vec![1, 2, 3], vec![]]), Ok(3));
}

#[test]
fn forget_only_deletes_own_memory() {
    assert_eq!(plan_forget(&ForgetArgs { agent_id: s(" "), id: 1 }), Err(ToolError::EmptyAgentId));
    let plan = plan_forget(&ForgetArgs { agent_id: s(" agent-a"), id: 42 }).unwrap();
    let owner = owner_query(&plan);
    assert_eq!(owner.name, "owner");
    assert_eq!(owner.request_type, "read");
    assert_eq!(owner.root, steps::node_props(42, &["agent_id"]));
    let reply = |v: Json| Json::obj1("owner", Json::arr1(Json::obj1("agent_id", v)));
    for own in [reply(Json::string("agent-a")), reply(prop_string("agent-a"))] {
        let q = forget_query(&plan, &own).unwrap();
        assert_eq!(q.name, "gone");
        assert_eq!(q.request_type, "write");
        assert_eq!(q.root, steps::drop_by_id(42));
    }
    for other in [reply(Json::string("agent-b")), reply(prop_string("agent-b")), Json::obj1("owner", Json::Array(vec![])), Json::Null] {
        assert_eq!(forget_query(&plan, &other), Err(ToolError::NotFoundOrForeign(42)));
    }
    assert_eq!(forget_outcome(&plan), Json::obj1("forgot", Json::UInt(42)));
}

#[test]
fn stats_counts_own_memories() {
    assert_eq!(plan_stats(&StatsArgs { agent_id: s(""), namespace: None }), Err(ToolError::EmptyAgentId));
    let plan = plan_stats(&StatsArgs { agent_id: s("a "), namespace: Some(s("proj")) }).unwrap();
    let q = stats_query(&plan);
    assert_eq!(q.name, "total");
    assert_eq!(q.request_type, "read");
    assert_eq!(q.root, steps::count("Memory", "a", Some("proj")));
    assert_eq!(
        stats_outcome(&plan, &Json::obj1("total", Json::UInt(3))),
        Json::obj3("agent_id", Json::string("a"), "namespace", Json::string("proj"), "count", Json::UInt(3)),
    );
    let plan = plan_stats(&StatsArgs { agent_id: s("a"), namespace: None }).unwrap();
    assert_eq!(
        stats_outcome(&plan, &Json::obj1("total", Json::string("x"))),
        Json::obj3("agent_id", Json::string("a"), "namespace", Json::Null, "count", Json::UInt(0)),
    );
}


#[test]
fn substring_search() {
    assert!(contains("error: index_not_found (Memory)", "index_not_found"));
    assert!(contains("abc", ""));
    assert!(contains("abc", "abc"));
    assert!(!contains("ab", "abc"));
    assert!(!contains("index_not_foun", "index_not_found"));
}

#[test]
fn index_probe_decisions() {
    assert_eq!(after_index_probe(None, true), ProbeAction::Ready);
    assert_eq!(after_index_probe(Some("index_not_found"), false), ProbeAction::Retry);
    assert_eq!(after_index_probe(Some("x index_not_found y"), true), ProbeAction::TimedOut);
    assert_eq!(after_index_probe(Some("HTTP 500"), false), ProbeAction::Fail);
}
