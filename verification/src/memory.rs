//! The four memory tools: memory_store / memory_recall / memory_forget / memory_stats.
//!
//! Each tool alternates calls to the embedding endpoint and to Helix with decisions;
//! the decisions stand here, one function per step, and the caller performs the calls.
use vstd::prelude::*;
use vstd::string::StringExecFns;

use crate::embed::Embedder;
use crate::helix::steps::{at, filters_on, lemma_search_scoped_to_agent, lemma_count_scoped_to_agent, search_filter, count_filter, add_node, add_node_spec, count, count_spec, drop_by_id, drop_by_id_spec, nodes_by_id, node_props, value_map, value_map_spec, vector_search, vector_search_spec};
use crate::helix::{floats_spec, prop_f32, prop_f32_array, prop_i64, prop_spec, prop_string, HelixClient};
use crate::json::{as_str_spec, as_u64_spec, get_spec, lemma_view_items, or_null, view_items, view_members, Json, JsonV};
use crate::text::{lemma_trimmed_idempotent, is_blank, join, joined, opt_string, strings_view, trim, trimmed};

verus! {

broadcast use vstd::string::group_string_axioms;

/// Why a tool call is refused or fails.
#[derive(Debug, PartialEq)]
pub enum ToolError {
    /// `agent_id` is empty once trimmed.
    EmptyAgentId,
    /// The memory text is empty once trimmed.
    EmptyText,
    /// The recall query is empty once trimmed.
    EmptyQuery,
    /// The memory with this id does not exist or belongs to another agent; the two look the same.
    NotFoundOrForeign(u64),
    /// The embedding model returned no vector.
    NoEmbedding,
    /// Helix answered a store with this document, which names no id.
    UnexpectedReply(Json),
}

/// Agent identity is cooperative (any local caller can claim any id) but
/// structurally enforced: every query filters on it, so one agent can never
/// see another agent's memories through these tools.
pub fn require_agent_id(id: &str) -> (r: Result<String, ToolError>)
    ensures
        match r {
            Ok(t) => t@ == trimmed(id@) && t@.len() > 0,
            Err(e) => e == ToolError::EmptyAgentId && trimmed(id@).len() == 0,
        },
{
    let t = trim(id);
    if t.as_str().is_empty() {
        Err(ToolError::EmptyAgentId)
    } else {
        Ok(t)
    }
}

/// A string property read back whether Helix returns it decoded or still wrapped
/// in its `{"value": {"string": ...}}` encoding.
pub open spec fn prop_as_str_spec(v: JsonV) -> Option<Seq<char>> {
    match v {
        JsonV::Str(s) => Some(s),
        _ => match get_spec(v, "value"@) {
            Some(w) => match get_spec(w, "string"@) {
                Some(x) => as_str_spec(x),
                None => None,
            },
            None => None,
        },
    }
}

/// Read a string property whether Helix returns it decoded or still wrapped
/// in its `{"value": {"string": ...}}` encoding.
pub fn prop_as_str(v: &Json) -> (r: Option<&str>)
    ensures
        match r {
            Some(s) => prop_as_str_spec(v@) == Some(s@),
            None => prop_as_str_spec(v@) is None,
        },
{
    if let Some(s) = v.as_str() {
        return Some(s);
    }
    match v.get("value") {
        Some(w) => match w.get("string") {
            Some(x) => x.as_str(),
            None => None,
        },
        None => None,
    }
}

/// One query to send to Helix: its name, its kind (`read` or `write`) and its root step.
#[derive(Debug, PartialEq)]
pub struct QueryStep {
    pub name: String,
    pub request_type: String,
    pub root: Json,
}

/// Whether `q` is the query `name` of kind `request_type` with root `root`.
pub open spec fn is_query(q: QueryStep, name: Seq<char>, request_type: Seq<char>, root: JsonV) -> bool {
    q.name@ == name && q.request_type@ == request_type && q.root@ == root
}

fn query_step(name: &str, request_type: &str, root: Json) -> (r: QueryStep)
    ensures
        is_query(r, name@, request_type@, root@),
{
    QueryStep { name: String::from_str(name), request_type: String::from_str(request_type), root }
}

/// The tools' state: the Helix client and the embedding client they call.
pub struct Memory {
    helix: HelixClient,
    embedder: Embedder,
}

impl Memory {
    pub fn new(helix: HelixClient, embedder: Embedder) -> (r: Memory)
        ensures
            r.helix() == helix,
            r.embedder() == embedder,
    {
        Memory { helix, embedder }
    }

    pub closed spec fn helix(&self) -> HelixClient {
        self.helix
    }

    pub closed spec fn embedder(&self) -> Embedder {
        self.embedder
    }

    /// The Helix client.
    pub fn helix_client(&self) -> (r: &HelixClient)
        ensures
            *r == self.helix(),
    {
        &self.helix
    }

    /// The embedding client.
    pub fn embedding_client(&self) -> (r: &Embedder)
        ensures
            *r == self.embedder(),
    {
        &self.embedder
    }
}

/// Arguments of `memory_store`.
pub struct StoreArgs {
    /// Identity of the calling agent. The memory is private to this id.
    pub agent_id: String,
    /// The memory text to store. Write it as a self-contained fact or note.
    pub text: String,
    /// Namespace isolating memories per project within this agent. Defaults to "default".
    pub namespace: Option<String>,
    /// Importance from 0.0 to 1.0, as the bit pattern of a single-precision value. Defaults to 0.5.
    pub importance: Option<u32>,
    /// Short free-form tags for later filtering.
    pub tags: Option<Vec<String>>,
}

/// What a store will write, once its arguments are accepted.
#[derive(Debug, PartialEq)]
pub struct StorePlan {
    pub agent_id: String,
    pub namespace: String,
    pub tags: String,
    pub text: String,
}

/// The namespace a store writes to: the one given, else `default`.
pub open spec fn store_namespace(namespace: Option<String>) -> Seq<char> {
    match namespace {
        Some(ns) => ns@,
        None => "default"@,
    }
}

/// The tags a store records: the ones given, joined with commas.
pub open spec fn store_tags(tags: Option<Vec<String>>) -> Seq<char> {
    match tags {
        Some(t) => joined(strings_view(t@), ","@),
        None => Seq::empty(),
    }
}

/// The properties of a stored memory node.
pub open spec fn store_properties(
    plan: StorePlan,
    embedding: Seq<u64>,
    importance: u64,
    created_at: i64,
) -> Seq<(Seq<char>, JsonV)> {
    seq![
        ("text"@, prop_spec("string"@, JsonV::Str(plan.text@))),
        ("agent_id"@, prop_spec("string"@, JsonV::Str(plan.agent_id@))),
        ("namespace"@, prop_spec("string"@, JsonV::Str(plan.namespace@))),
        ("importance"@, prop_spec("f32"@, JsonV::Float(importance))),
        ("created_at"@, prop_spec("i64"@, JsonV::Int(created_at as int))),
        ("tags"@, prop_spec("string"@, JsonV::Str(plan.tags@))),
        ("embedding"@, prop_spec("f32_array"@, JsonV::Array(floats_spec(embedding)))),
    ]
}

/// The id Helix gives a stored node: `stored[0]["$id"]`.
pub open spec fn stored_id(reply: JsonV) -> Option<u64> {
    match get_spec(reply, "stored"@) {
        Some(JsonV::Array(nodes)) => if nodes.len() > 0 {
            match get_spec(nodes[0], "$id"@) {
                Some(id) => as_u64_spec(id),
                None => None,
            }
        } else {
            None
        },
        _ => None,
    }
}

/// Checks the arguments of a store: the text must not be blank, the agent must be named.
pub fn plan_store(args: &StoreArgs) -> (r: Result<StorePlan, ToolError>)
    ensures
        trimmed(args.text@).len() == 0 ==> r == Err::<StorePlan, ToolError>(ToolError::EmptyText),
        trimmed(args.text@).len() > 0 && trimmed(args.agent_id@).len() == 0 ==> r == Err::<
            StorePlan,
            ToolError,
        >(ToolError::EmptyAgentId),
        trimmed(args.text@).len() > 0 && trimmed(args.agent_id@).len() > 0 ==> (r matches Ok(p) && {
            &&& p.agent_id@ == trimmed(args.agent_id@)
            &&& p.namespace@ == store_namespace(args.namespace)
            &&& p.tags@ == store_tags(args.tags)
            &&& p.text@ == args.text@
        }),
{
    if is_blank(args.text.as_str()) {
        return Err(ToolError::EmptyText);
    }
    let agent_id = match require_agent_id(args.agent_id.as_str()) {
        Ok(a) => a,
        Err(e) => return Err(e),
    };
    let namespace = match &args.namespace {
        Some(ns) => ns.clone(),
        None => String::from_str("default"),
    };
    let tags = match &args.tags {
        Some(t) => join(t, ","),
        None => String::new(),
    };
    Ok(StorePlan { agent_id, namespace, tags, text: args.text.clone() })
}

/// The write of a store, given the vectors the embedding model returned for its text,
/// the importance (bit pattern of its value widened to binary64) and the creation time.
pub fn store_query(plan: &StorePlan, vectors: &Vec<Vec<u64>>, importance: u64, created_at: i64) -> (r:
    Result<QueryStep, ToolError>)
    ensures
        vectors@.len() == 0 ==> r == Err::<QueryStep, ToolError>(ToolError::NoEmbedding),
        vectors@.len() > 0 ==> (r matches Ok(q) && is_query(
            q,
            "stored"@,
            "write"@,
            add_node_spec("Memory"@, store_properties(*plan, vectors@[0]@, importance, created_at)),
        )),
{
    if vectors.len() == 0 {
        return Err(ToolError::NoEmbedding);
    }
    let mut props: Vec<(String, Json)> = Vec::new();
    proof {
        assert(view_members(props@) == Seq::<(Seq<char>, JsonV)>::empty());
    }
    Json::push_member(&mut props, "text", prop_string(plan.text.as_str()));
    Json::push_member(&mut props, "agent_id", prop_string(plan.agent_id.as_str()));
    Json::push_member(&mut props, "namespace", prop_string(plan.namespace.as_str()));
    Json::push_member(&mut props, "importance", prop_f32(importance));
    Json::push_member(&mut props, "created_at", prop_i64(created_at));
    Json::push_member(&mut props, "tags", prop_string(plan.tags.as_str()));
    Json::push_member(&mut props, "embedding", prop_f32_array(vectors[0].as_slice()));
    assert(view_members(props@) =~= store_properties(*plan, vectors@[0]@, importance, created_at));
    Ok(query_step("stored", "write", add_node("Memory", props)))
}

/// The answer to a store, given Helix's reply to its write.
pub fn store_outcome(plan: &StorePlan, reply: &Json) -> (r: Result<Json, ToolError>)
    ensures
        match stored_id(reply@) {
            Some(id) => r matches Ok(j) && j@ == JsonV::Object(
                seq![
                    ("id"@, JsonV::Int(id as int)),
                    ("agent_id"@, JsonV::Str(plan.agent_id@)),
                    ("namespace"@, JsonV::Str(plan.namespace@)),
                    ("chars"@, JsonV::Int(plan.text@.len() as int)),
                ],
            ),
            None => r matches Err(ToolError::UnexpectedReply(j)) && j@ == reply@,
        },
{
    let id = match reply.get("stored") {
        Some(s) => match s.as_array() {
            Some(nodes) => if nodes.len() > 0 {
                proof {
                    lemma_view_items(nodes@);
                }
                match nodes[0].get("$id") {
                    Some(i) => i.as_u64(),
                    None => None,
                }
            } else {
                None
            },
            None => None,
        },
        None => None,
    };
    match id {
        Some(id) => {
            let chars = plan.text.as_str().unicode_len();
            Ok(
                Json::obj4(
                    "id",
                    Json::UInt(id),
                    "agent_id",
                    Json::Str(plan.agent_id.clone()),
                    "namespace",
                    Json::Str(plan.namespace.clone()),
                    "chars",
                    Json::UInt(chars as u64),
                ),
            )
        },
        None => Err(ToolError::UnexpectedReply(reply.copy())),
    }
}

/// Arguments of `memory_recall`.
pub struct RecallArgs {
    /// Identity of the calling agent. Only this agent's memories are searched.
    pub agent_id: String,
    /// Natural-language query describing what to recall.
    pub query: String,
    /// Restrict recall to one namespace. Omit to search all namespaces.
    pub namespace: Option<String>,
    /// Max memories to return (1-50). Defaults to 5.
    pub top_k: Option<u32>,
}

/// What a recall will search for, once its arguments are accepted.
#[derive(Debug, PartialEq)]
pub struct RecallPlan {
    pub agent_id: String,
    pub query: String,
    pub namespace: Option<String>,
    pub top_k: u32,
}

/// The number of memories a recall returns at most: the one asked for, else 5, kept within 1 to 50.
pub open spec fn recall_limit(top_k: Option<u32>) -> u32 {
    let k = match top_k {
        Some(k) => k,
        None => 5,
    };
    if k < 1 {
        1
    } else if k > 50 {
        50
    } else {
        k
    }
}

/// The properties a recall reads of each hit.
pub open spec fn hit_properties() -> Seq<&'static str> {
    seq!["$id", "agent_id", "text", "namespace", "importance", "created_at"]
}

/// What a recall answers for one hit: its properties, absent ones as `null`.
pub open spec fn hit_summary(hit: JsonV) -> JsonV {
    JsonV::Object(
        seq![
            ("id"@, or_null(get_spec(hit, "$id"@))),
            ("agent_id"@, or_null(get_spec(hit, "agent_id"@))),
            ("text"@, or_null(get_spec(hit, "text"@))),
            ("namespace"@, or_null(get_spec(hit, "namespace"@))),
            ("importance"@, or_null(get_spec(hit, "importance"@))),
            ("created_at"@, or_null(get_spec(hit, "created_at"@))),
        ],
    )
}

/// The hits in a recall reply: its `hits` array, else none.
pub open spec fn reply_hits(reply: JsonV) -> Seq<JsonV> {
    match get_spec(reply, "hits"@) {
        Some(JsonV::Array(hits)) => hits,
        _ => Seq::empty(),
    }
}

/// The hits a recall keeps: the first `limit` of the reply's hits, in relevance order.
pub open spec fn kept_hits(reply: JsonV, limit: u32) -> Seq<JsonV> {
    let hits = reply_hits(reply);
    if hits.len() <= limit {
        hits
    } else {
        hits.take(limit as int)
    }
}

/// What a recall answers: the number of hits kept (at most `limit`) and their summaries,
/// in relevance order.
pub open spec fn recall_answer(reply: JsonV, limit: u32) -> JsonV {
    let hits = kept_hits(reply, limit);
    JsonV::Object(
        seq![
            ("count"@, JsonV::Int(hits.len() as int)),
            ("results"@, JsonV::Array(Seq::new(hits.len(), |i: int| hit_summary(hits[i])))),
        ],
    )
}

/// Checks the arguments of a recall: the query must not be blank, the agent must be named.
pub fn plan_recall(args: &RecallArgs) -> (r: Result<RecallPlan, ToolError>)
    ensures
        trimmed(args.query@).len() == 0 ==> r == Err::<RecallPlan, ToolError>(ToolError::EmptyQuery),
        trimmed(args.query@).len() > 0 && trimmed(args.agent_id@).len() == 0 ==> r == Err::<
            RecallPlan,
            ToolError,
        >(ToolError::EmptyAgentId),
        trimmed(args.query@).len() > 0 && trimmed(args.agent_id@).len() > 0 ==> (r matches Ok(p) && {
            &&& p.agent_id@ == trimmed(args.agent_id@)
            &&& p.query@ == args.query@
            &&& opt_string(p.namespace) == opt_string(args.namespace)
            &&& p.top_k == recall_limit(args.top_k)
        }),
{
    if is_blank(args.query.as_str()) {
        return Err(ToolError::EmptyQuery);
    }
    let agent_id = match require_agent_id(args.agent_id.as_str()) {
        Ok(a) => a,
        Err(e) => return Err(e),
    };
    let k = match args.top_k {
        Some(k) => k,
        None => 5,
    };
    let top_k = if k < 1 {
        1
    } else if k > 50 {
        50
    } else {
        k
    };
    let namespace = match &args.namespace {
        Some(ns) => Some(ns.clone()),
        None => None,
    };
    Ok(RecallPlan { agent_id, query: args.query.clone(), namespace, top_k })
}

/// The search of a recall, given the vectors the embedding model returned for its query.
pub fn recall_query(plan: &RecallPlan, vectors: &Vec<Vec<u64>>) -> (r: Result<QueryStep, ToolError>)
    ensures
        vectors@.len() == 0 ==> r == Err::<QueryStep, ToolError>(ToolError::NoEmbedding),
        vectors@.len() > 0 ==> (r matches Ok(q) && is_query(
            q,
            "hits"@,
            "read"@,
            value_map_spec(
                vector_search_spec(
                    "Memory"@,
                    "embedding"@,
                    vectors@[0]@,
                    plan.top_k,
                    plan.agent_id@,
                    opt_string(plan.namespace),
                ),
                hit_properties(),
            ),
        )),
{
    if vectors.len() == 0 {
        return Err(ToolError::NoEmbedding);
    }
    let namespace: Option<&str> = match &plan.namespace {
        Some(ns) => Some(ns.as_str()),
        None => None,
    };
    let search = vector_search(
        "Memory",
        "embedding",
        vectors[0].as_slice(),
        plan.top_k,
        plan.agent_id.as_str(),
        namespace,
    );
    let properties = ["$id", "agent_id", "text", "namespace", "importance", "created_at"];
    assert(properties@ =~= hit_properties());
    Ok(query_step("hits", "read", value_map(search, &properties)))
}

/// What a recall answers for one hit.
fn summarize_hit(hit: &Json) -> (r: Json)
    ensures
        r@ == hit_summary(hit@),
{
    Json::obj6(
        "id",
        copy_or_null(hit.get("$id")),
        "agent_id",
        copy_or_null(hit.get("agent_id")),
        "text",
        copy_or_null(hit.get("text")),
        "namespace",
        copy_or_null(hit.get("namespace")),
        "importance",
        copy_or_null(hit.get("importance")),
        "created_at",
        copy_or_null(hit.get("created_at")),
    )
}

/// A copy of a document, or `null` for none.
fn copy_or_null(doc: Option<&Json>) -> (r: Json)
    ensures
        r@ == or_null(match doc {
            Some(d) => Some(d@),
            None => None,
        }),
{
    match doc {
        Some(d) => d.copy(),
        None => Json::Null,
    }
}

/// The answer to a recall, given Helix's reply to its search: at most `plan.top_k` memories.
pub fn recall_outcome(plan: &RecallPlan, reply: &Json) -> (r: Json)
    ensures
        r@ == recall_answer(reply@, plan.top_k),
{
    let limit = plan.top_k;
    let mut results: Vec<Json> = Vec::new();
    proof {
        assert(view_items(results@) == Seq::<JsonV>::empty());
    }
    let ghost hits = kept_hits(reply@, limit);
    let ghost target = Seq::new(hits.len(), |i: int| hit_summary(hits[i]));
    let mut n: usize = 0;
    if let Some(h) = reply.get("hits") {
        if let Some(items) = h.as_array() {
            proof {
                lemma_view_items(items@);
            }
            assert(reply_hits(reply@) == view_items(items@));
            let keep: usize = if items.len() as u64 <= limit as u64 {
                items.len()
            } else {
                limit as usize
            };
            assert(hits =~= view_items(items@).take(keep as int));
            let mut i: usize = 0;
            while i < keep
                invariant
                    0 <= i <= keep <= items@.len(),
                    hits =~= view_items(items@).take(keep as int),
                    view_items(items@).len() == items@.len(),
                    forall|t: int| 0 <= t < items@.len() ==> #[trigger] view_items(items@)[t] == items@[t]@,
                    target == Seq::new(hits.len(), |i: int| hit_summary(hits[i])),
                    view_items(results@) =~= target.take(i as int),
                decreases keep - i,
            {
                Json::push_item(&mut results, summarize_hit(&items[i]));
                assert(view_items(results@) =~= target.take(i + 1));
                i = i + 1;
            }
            assert(target.take(keep as int) =~= target);
            n = keep;
        }
    }
    assert(view_items(results@) =~= target);
    Json::obj2("count", Json::UInt(n as u64), "results", Json::array(results))
}

/// Arguments of `memory_forget`.
pub struct ForgetArgs {
    /// Identity of the calling agent. Must own the memory to delete it.
    pub agent_id: String,
    /// The numeric id of the memory to delete (see memory_recall results).
    pub id: u64,
}

/// Which memory a forget concerns and on whose behalf, once its arguments are accepted.
#[derive(Debug, PartialEq)]
pub struct ForgetPlan {
    pub agent_id: String,
    pub id: u64,
}

/// The owner a node-properties reply names: `owner[0]["agent_id"]`, in either string encoding.
pub open spec fn reply_owner(reply: JsonV) -> Option<Seq<char>> {
    match get_spec(reply, "owner"@) {
        Some(JsonV::Array(nodes)) => if nodes.len() > 0 {
            match get_spec(nodes[0], "agent_id"@) {
                Some(v) => prop_as_str_spec(v),
                None => None,
            }
        } else {
            None
        },
        _ => None,
    }
}

/// Checks the arguments of a forget: the agent must be named.
pub fn plan_forget(args: &ForgetArgs) -> (r: Result<ForgetPlan, ToolError>)
    ensures
        trimmed(args.agent_id@).len() == 0 ==> r == Err::<ForgetPlan, ToolError>(ToolError::EmptyAgentId),
        trimmed(args.agent_id@).len() > 0 ==> (r matches Ok(p) && p.agent_id@ == trimmed(args.agent_id@)
            && p.id == args.id),
{
    let agent_id = match require_agent_id(args.agent_id.as_str()) {
        Ok(a) => a,
        Err(e) => return Err(e),
    };
    Ok(ForgetPlan { agent_id, id: args.id })
}

/// The read of a forget: the owner of the memory.
pub fn owner_query(plan: &ForgetPlan) -> (r: QueryStep)
    ensures
        is_query(r, "owner"@, "read"@, value_map_spec(nodes_by_id(plan.id), seq!["agent_id"])),
{
    let properties = ["agent_id"];
    assert(properties@ =~= seq!["agent_id"]);
    query_step("owner", "read", node_props(plan.id, &properties))
}

/// The delete of a forget, given Helix's answer about the owner: issued only when the
/// memory belongs to the calling agent. A missing memory and another agent's memory are
/// refused alike.
pub fn forget_query(plan: &ForgetPlan, reply: &Json) -> (r: Result<QueryStep, ToolError>)
    ensures
        reply_owner(reply@) == Some(plan.agent_id@) ==> (r matches Ok(q) && is_query(
            q,
            "gone"@,
            "write"@,
            drop_by_id_spec(plan.id),
        )),
        reply_owner(reply@) != Some(plan.agent_id@) ==> r == Err::<QueryStep, ToolError>(
            ToolError::NotFoundOrForeign(plan.id),
        ),
{
    let owner = match reply.get("owner") {
        Some(o) => match o.as_array() {
            Some(nodes) => if nodes.len() > 0 {
                proof {
                    lemma_view_items(nodes@);
                }
                match nodes[0].get("agent_id") {
                    Some(v) => prop_as_str(v),
                    None => None,
                }
            } else {
                None
            },
            None => None,
        },
        None => None,
    };
    let owned = match owner {
        Some(o) => String::from_str(o) == plan.agent_id,
        None => false,
    };
    if !owned {
        return Err(ToolError::NotFoundOrForeign(plan.id));
    }
    Ok(query_step("gone", "write", drop_by_id(plan.id)))
}

/// The answer to a completed forget.
pub fn forget_outcome(plan: &ForgetPlan) -> (r: Json)
    ensures
        r@ == JsonV::Object(seq![("forgot"@, JsonV::Int(plan.id as int))]),
{
    Json::obj1("forgot", Json::UInt(plan.id))
}

/// Arguments of `memory_stats`.
pub struct StatsArgs {
    /// Identity of the calling agent. Only this agent's memories are counted.
    pub agent_id: String,
    /// Count memories in one namespace only. Omit to count all namespaces.
    pub namespace: Option<String>,
}

/// Whose memories a count concerns, once its arguments are accepted.
#[derive(Debug, PartialEq)]
pub struct StatsPlan {
    pub agent_id: String,
    pub namespace: Option<String>,
}

/// The count in a count reply: its `total`, else 0.
pub open spec fn reply_total(reply: JsonV) -> u64 {
    match get_spec(reply, "total"@) {
        Some(t) => match as_u64_spec(t) {
            Some(n) => n,
            None => 0,
        },
        None => 0,
    }
}

/// An optional string as a document: `null` when absent.
pub open spec fn str_or_null(s: Option<Seq<char>>) -> JsonV {
    match s {
        Some(t) => JsonV::Str(t),
        None => JsonV::Null,
    }
}

/// What a stats call answers: the agent, the namespace asked for (`null` when none) and the count.
pub open spec fn stats_answer(plan: StatsPlan, reply: JsonV) -> JsonV {
    JsonV::Object(
        seq![
            ("agent_id"@, JsonV::Str(plan.agent_id@)),
            ("namespace"@, str_or_null(opt_string(plan.namespace))),
            ("count"@, JsonV::Int(reply_total(reply) as int)),
        ],
    )
}

/// Checks the arguments of a count: the agent must be named.
pub fn plan_stats(args: &StatsArgs) -> (r: Result<StatsPlan, ToolError>)
    ensures
        trimmed(args.agent_id@).len() == 0 ==> r == Err::<StatsPlan, ToolError>(ToolError::EmptyAgentId),
        trimmed(args.agent_id@).len() > 0 ==> (r matches Ok(p) && p.agent_id@ == trimmed(args.agent_id@)
            && opt_string(p.namespace) == opt_string(args.namespace)),
{
    let agent_id = match require_agent_id(args.agent_id.as_str()) {
        Ok(a) => a,
        Err(e) => return Err(e),
    };
    let namespace = match &args.namespace {
        Some(ns) => Some(ns.clone()),
        None => None,
    };
    Ok(StatsPlan { agent_id, namespace })
}

/// The count of a stats call: this agent's memories, in the namespace when one is given.
pub fn stats_query(plan: &StatsPlan) -> (r: QueryStep)
    ensures
        is_query(r, "total"@, "read"@, count_spec("Memory"@, plan.agent_id@, opt_string(plan.namespace))),
{
    let namespace: Option<&str> = match &plan.namespace {
        Some(ns) => Some(ns.as_str()),
        None => None,
    };
    query_step("total", "read", count("Memory", plan.agent_id.as_str(), namespace))
}

/// The answer to a stats call, given Helix's reply to its count.
pub fn stats_outcome(plan: &StatsPlan, reply: &Json) -> (r: Json)
    ensures
        r@ == stats_answer(*plan, reply@),
{
    let total = match reply.get("total") {
        Some(t) => match t.as_u64() {
            Some(n) => n,
            None => 0,
        },
        None => 0,
    };
    let namespace = match &plan.namespace {
        Some(ns) => Json::Str(ns.clone()),
        None => Json::Null,
    };
    Json::obj3("agent_id", Json::Str(plan.agent_id.clone()), "namespace", namespace, "count", Json::UInt(total))
}

/// A string property reads back as the string written, in both encodings Helix may return.
pub proof fn lemma_prop_string_read_back(s: Seq<char>)
    ensures
        prop_as_str_spec(prop_spec("string"@, JsonV::Str(s))) == Some(s),
        prop_as_str_spec(JsonV::Str(s)) == Some(s),
{
}

/// The reply Helix gives to the owner read of a node whose `agent_id` property reads as `v`.
pub open spec fn owner_reply(v: JsonV) -> JsonV {
    crate::json::obj1("owner"@, JsonV::Array(seq![crate::json::obj1("agent_id"@, v)]))
}

/// A memory is forgotten only on behalf of the agent that stored it: when Helix reports the
/// `agent_id` property a store wrote (encoded or decoded), the owner the forget compares with
/// is the storing agent, so the delete is issued exactly when the two agents are the same.
pub proof fn lemma_forget_only_by_owner(
    stored: StorePlan,
    embedding: Seq<u64>,
    importance: u64,
    created_at: i64,
    forget: ForgetPlan,
    decoded: bool,
)
    ensures
        ({
            let written = store_properties(stored, embedding, importance, created_at)[1];
            let reply = owner_reply(if decoded { JsonV::Str(stored.agent_id@) } else { written.1 });
            &&& written.0 == "agent_id"@
            &&& reply_owner(reply) == Some(stored.agent_id@)
            &&& (reply_owner(reply) == Some(forget.agent_id@) <==> forget.agent_id@ == stored.agent_id@)
        }),
{
    lemma_prop_string_read_back(stored.agent_id@);
}

/// An accepted agent id is accepted again as itself: ids are compared in trimmed form.
pub proof fn lemma_agent_id_stable(id: Seq<char>)
    ensures
        trimmed(id).len() > 0 ==> trimmed(trimmed(id)) == trimmed(id) && trimmed(trimmed(id)).len() > 0,
{
    lemma_trimmed_idempotent(id);
}

/// A recall returns between 1 and 50 memories, and exactly as many as asked when that is in range.
pub proof fn lemma_recall_limit_in_range(top_k: Option<u32>)
    ensures
        1 <= recall_limit(top_k) <= 50,
        top_k matches Some(k) ==> (1 <= k <= 50 ==> recall_limit(top_k) == k),
        top_k is None ==> recall_limit(top_k) == 5,
{
}

/// A recall only searches the calling agent's memories, and only the requested namespace when one is given.
pub proof fn lemma_recall_scoped_to_agent(plan: RecallPlan, embedding: Seq<u64>)
    ensures
        ({
            let root = value_map_spec(
                vector_search_spec("Memory"@, "embedding"@, embedding, plan.top_k, plan.agent_id@, opt_string(plan.namespace)),
                hit_properties(),
            );
            let pred = search_filter(at(at(root, "value_map"@), "input"@));
            &&& filters_on(pred, "agent_id"@, plan.agent_id@)
            &&& plan.namespace matches Some(ns) ==> filters_on(pred, "namespace"@, ns@)
        }),
{
    reveal_strlit("input");
    reveal_strlit("properties");
    let search = vector_search_spec("Memory"@, "embedding"@, embedding, plan.top_k, plan.agent_id@, opt_string(plan.namespace));
    let m = seq![("input"@, search), ("properties"@, JsonV::Array(crate::helix::steps::names_spec(hit_properties())))];
    assert("input"@.len() != "properties"@.len());
    crate::json::lemma_lookup_first(m, "input"@);
    lemma_search_scoped_to_agent("Memory"@, "embedding"@, embedding, plan.top_k, plan.agent_id@, opt_string(plan.namespace));
}

/// A count only counts the calling agent's memories, and only the requested namespace when one is given.
pub proof fn lemma_stats_scoped_to_agent(plan: StatsPlan)
    ensures
        ({
            let pred = count_filter(count_spec("Memory"@, plan.agent_id@, opt_string(plan.namespace)));
            &&& filters_on(pred, "$label"@, "Memory"@)
            &&& filters_on(pred, "agent_id"@, plan.agent_id@)
            &&& plan.namespace matches Some(ns) ==> filters_on(pred, "namespace"@, ns@)
        }),
{
    lemma_count_scoped_to_agent("Memory"@, plan.agent_id@, opt_string(plan.namespace));
}

/// A memory is within the reach of the agent that stored it: the `agent_id` property a store
/// writes reads back as exactly the value a recall by the same agent filters on.
pub proof fn lemma_store_visible_to_same_agent(
    stored: StorePlan,
    embedding: Seq<u64>,
    importance: u64,
    created_at: i64,
    recall: RecallPlan,
    query_vector: Seq<u64>,
)
    requires
        stored.agent_id@ == recall.agent_id@,
    ensures
        ({
            let written = store_properties(stored, embedding, importance, created_at)[1];
            let search = vector_search_spec(
                "Memory"@,
                "embedding"@,
                query_vector,
                recall.top_k,
                recall.agent_id@,
                opt_string(recall.namespace),
            );
            &&& written.0 == "agent_id"@
            &&& prop_as_str_spec(written.1) == Some(recall.agent_id@)
            &&& filters_on(search_filter(search), "agent_id"@, prop_as_str_spec(written.1)->Some_0)
        }),
{
    lemma_prop_string_read_back(stored.agent_id@);
    lemma_search_scoped_to_agent(
        "Memory"@,
        "embedding"@,
        query_vector,
        recall.top_k,
        recall.agent_id@,
        opt_string(recall.namespace),
    );
}

/// A recall answer lists at most `limit` memories, the first ones of the reply in relevance
/// order, and its `count` is the number it lists: the smaller of the number of hits and `limit`.
pub proof fn lemma_recall_count_matches_results(reply: JsonV, limit: u32)
    ensures
        ({
            let answer = recall_answer(reply, limit);
            let n = if reply_hits(reply).len() <= limit { reply_hits(reply).len() as int } else { limit as int };
            &&& get_spec(answer, "count"@) == Some(JsonV::Int(n))
            &&& get_spec(answer, "results"@) matches Some(JsonV::Array(results)) && results.len() == n
                && n <= limit && forall|i: int| 0 <= i < n ==> #[trigger] results[i] == hit_summary(reply_hits(reply)[i])
        }),
{
    reveal_strlit("count");
    reveal_strlit("results");
    let hits = kept_hits(reply, limit);
    let results = Seq::new(hits.len(), |i: int| hit_summary(hits[i]));
    let m = seq![
        ("count"@, JsonV::Int(hits.len() as int)),
        ("results"@, JsonV::Array(results)),
    ];
    assert("count"@.len() != "results"@.len());
    crate::json::lemma_lookup_first(m, "count"@);
    assert(m.drop_last() =~= seq![m[0]]);
    assert(crate::json::lookup(m, "results"@) == Some(JsonV::Array(results)));
}

/// A stats answer names the agent and the namespace asked for, and its `count` is the
/// `total` Helix reported whenever that is a non-negative integer.
pub proof fn lemma_stats_count_is_reported_total(plan: StatsPlan, reply: JsonV, n: u64)
    requires
        get_spec(reply, "total"@) == Some(JsonV::Int(n as int)),
    ensures
        get_spec(stats_answer(plan, reply), "count"@) == Some(JsonV::Int(n as int)),
        get_spec(stats_answer(plan, reply), "agent_id"@) == Some(JsonV::Str(plan.agent_id@)),
{
    reveal_strlit("agent_id");
    reveal_strlit("namespace");
    reveal_strlit("count");
    let m = seq![
        ("agent_id"@, JsonV::Str(plan.agent_id@)),
        ("namespace"@, str_or_null(opt_string(plan.namespace))),
        ("count"@, JsonV::Int(reply_total(reply) as int)),
    ];
    assert("namespace"@.len() != "agent_id"@.len());
    assert("count"@.len() != "agent_id"@.len());
    crate::json::lemma_lookup_at(m, "agent_id"@, 0);
    crate::json::lemma_lookup_at(m, "count"@, 2);
}

/// Each result of a recall copies its hit: its `id` is the hit's `$id`, and its `agent_id`,
/// `text`, `namespace`, `importance` and `created_at` are the hit's members of the same name,
/// each `null` when the hit has none.
pub proof fn lemma_recall_result_copies_hit(reply: JsonV, limit: u32, hits: Seq<JsonV>, i: int)
    requires
        get_spec(reply, "hits"@) == Some(JsonV::Array(hits)),
        0 <= i < hits.len(),
        i < limit,
    ensures
        get_spec(recall_answer(reply, limit), "results"@) matches Some(JsonV::Array(results)) && i
            < results.len() && {
            let r = results[i];
            let h = hits[i];
            &&& get_spec(r, "id"@) == Some(or_null(get_spec(h, "$id"@)))
            &&& get_spec(r, "agent_id"@) == Some(or_null(get_spec(h, "agent_id"@)))
            &&& get_spec(r, "text"@) == Some(or_null(get_spec(h, "text"@)))
            &&& get_spec(r, "namespace"@) == Some(or_null(get_spec(h, "namespace"@)))
            &&& get_spec(r, "importance"@) == Some(or_null(get_spec(h, "importance"@)))
            &&& get_spec(r, "created_at"@) == Some(or_null(get_spec(h, "created_at"@)))
        },
{
    reveal_strlit("count");
    reveal_strlit("results");
    reveal_strlit("id");
    reveal_strlit("agent_id");
    reveal_strlit("text");
    reveal_strlit("namespace");
    reveal_strlit("importance");
    reveal_strlit("created_at");
    let kept = kept_hits(reply, limit);
    assert(kept.len() > i && kept[i] == hits[i]);
    let results = Seq::new(kept.len(), |t: int| hit_summary(kept[t]));
    let top = seq![("count"@, JsonV::Int(kept.len() as int)), ("results"@, JsonV::Array(results))];
    crate::json::lemma_lookup_at(top, "results"@, 1);
    let h = hits[i];
    let m = seq![
        ("id"@, or_null(get_spec(h, "$id"@))),
        ("agent_id"@, or_null(get_spec(h, "agent_id"@))),
        ("text"@, or_null(get_spec(h, "text"@))),
        ("namespace"@, or_null(get_spec(h, "namespace"@))),
        ("importance"@, or_null(get_spec(h, "importance"@))),
        ("created_at"@, or_null(get_spec(h, "created_at"@))),
    ];
    assert(results[i] == JsonV::Object(m));
    assert("id"@.len() == 2 && "agent_id"@.len() == 8 && "text"@.len() == 4);
    assert("namespace"@.len() == 9 && "importance"@.len() == 10 && "created_at"@.len() == 10);
    assert("importance"@[0] != "created_at"@[0]);
    crate::json::lemma_lookup_at(m, "id"@, 0);
    crate::json::lemma_lookup_at(m, "agent_id"@, 1);
    crate::json::lemma_lookup_at(m, "text"@, 2);
    crate::json::lemma_lookup_at(m, "namespace"@, 3);
    crate::json::lemma_lookup_at(m, "importance"@, 4);
    crate::json::lemma_lookup_at(m, "created_at"@, 5);
}

/// A stored memory node records the embedding exactly as given: its `embedding` property
/// holds item `i` as the number whose bit pattern is `embedding[i]`, and its `importance`
/// property holds the given importance.
pub proof fn lemma_store_writes_embedding_as_given(
    plan: StorePlan,
    embedding: Seq<u64>,
    importance: u64,
    created_at: i64,
)
    ensures
        get_spec(
            get_spec(add_node_spec("Memory"@, store_properties(plan, embedding, importance, created_at)), "add_n"@)->Some_0,
            "properties"@,
        ) matches Some(JsonV::Array(ps)) && ps.len() == 7 && {
            let emb = ps[6]->Array_0;
            let imp = ps[3]->Array_0;
            &&& ps[6] is Array && emb.len() == 2 && emb[0] == JsonV::Str("embedding"@)
            &&& (get_spec(get_spec(emb[1], "value"@)->Some_0, "f32_array"@) matches Some(JsonV::Array(xs))
                && xs.len() == embedding.len() && forall|i: int|
                0 <= i < embedding.len() ==> #[trigger] xs[i] == JsonV::Float(embedding[i]))
            &&& ps[3] is Array && imp.len() == 2 && imp[0] == JsonV::Str("importance"@)
            &&& get_spec(get_spec(imp[1], "value"@)->Some_0, "f32"@) == Some(JsonV::Float(importance))
        },
{
    reveal_strlit("label");
    reveal_strlit("properties");
    reveal_strlit("add_n");
    let props = store_properties(plan, embedding, importance, created_at);
    let pairs = crate::helix::steps::pairs_spec(props);
    let m = seq![("label"@, JsonV::Str("Memory"@)), ("properties"@, JsonV::Array(pairs))];
    assert("label"@.len() != "properties"@.len());
    crate::json::lemma_lookup_at(m, "properties"@, 1);
    assert(pairs[6] == JsonV::Array(seq![JsonV::Str(props[6].0), props[6].1]));
    assert(pairs[3] == JsonV::Array(seq![JsonV::Str(props[3].0), props[3].1]));
    crate::helix::lemma_f32_array_holds_components(embedding);
}

/// A recall searches with exactly the query vector given: item `i` of the search's
/// `query_vector` is the number whose bit pattern is `vector[i]`.
pub proof fn lemma_recall_searches_with_given_vector(plan: RecallPlan, vector: Seq<u64>)
    ensures
        ({
            let search = vector_search_spec("Memory"@, "embedding"@, vector, plan.top_k, plan.agent_id@, opt_string(plan.namespace));
            let qv = get_spec(get_spec(search, "vector_search_nodes_within"@)->Some_0, "query_vector"@);
            &&& qv is Some
            &&& get_spec(get_spec(qv->Some_0, "value"@)->Some_0, "f32_array"@) matches Some(
                JsonV::Array(xs),
            ) && xs.len() == vector.len() && forall|i: int|
                0 <= i < vector.len() ==> #[trigger] xs[i] == JsonV::Float(vector[i])
        }),
{
    reveal_strlit("query_vector");
    reveal_strlit("k");
    let ns = opt_string(plan.namespace);
    let m = seq![
        ("input"@, crate::json::obj1("nodes_where"@, crate::json::obj1("predicate"@, crate::helix::steps::search_predicate(plan.agent_id@, ns)))),
        ("label"@, JsonV::Str("Memory"@)),
        ("property"@, JsonV::Str("embedding"@)),
        ("query_vector"@, prop_spec("f32_array"@, JsonV::Array(floats_spec(vector)))),
        ("k"@, crate::json::obj1("literal"@, JsonV::Int(plan.top_k as int))),
    ];
    assert("query_vector"@.len() != "k"@.len());
    crate::json::lemma_lookup_at(m, "query_vector"@, 3);
    crate::helix::lemma_f32_array_holds_components(vector);
}

/// A store names the id Helix gave the node: the `$id` of the first stored node, whenever
/// that is a non-negative integer.
pub proof fn lemma_store_reads_stored_id(reply: JsonV, nodes: Seq<JsonV>, n: u64)
    requires
        get_spec(reply, "stored"@) == Some(JsonV::Array(nodes)),
        nodes.len() > 0,
        get_spec(nodes[0], "$id"@) == Some(JsonV::Int(n as int)),
    ensures
        stored_id(reply) == Some(n),
{
}

} // verus!
