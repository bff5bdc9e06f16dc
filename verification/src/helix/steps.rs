//! Root step builders. Shapes follow the HelixDB SDK query guides.
use vstd::prelude::*;

use super::{floats_spec, prop_f32_array, prop_spec};
use crate::json::{obj1, view_items, view_members, Json, JsonV};
use crate::text::opt_str;

verus! {

broadcast use vstd::string::group_string_axioms;

/// `property == value` on a node.
pub open spec fn eq_predicate(property: Seq<char>, value: Seq<char>) -> JsonV {
    obj1(
        "eq"@,
        JsonV::Object(
            seq![
                ("left"@, obj1("property"@, JsonV::Str(property))),
                ("right"@, obj1("constant"@, obj1("string"@, JsonV::Str(value)))),
            ],
        ),
    )
}

/// The conjunction of `predicates`.
pub open spec fn all_of(predicates: Seq<JsonV>) -> JsonV {
    obj1("and"@, obj1("predicates"@, JsonV::Array(predicates)))
}

/// The filter of a vector search: the agent, and the namespace within it when one is given.
pub open spec fn search_predicate(agent_id: Seq<char>, namespace: Option<Seq<char>>) -> JsonV {
    match namespace {
        None => eq_predicate("agent_id"@, agent_id),
        Some(ns) => all_of(
            seq![eq_predicate("agent_id"@, agent_id), eq_predicate("namespace"@, ns)],
        ),
    }
}

/// The filter of a count: the label, the agent, and the namespace when one is given.
pub open spec fn count_predicates(
    label: Seq<char>,
    agent_id: Seq<char>,
    namespace: Option<Seq<char>>,
) -> Seq<JsonV> {
    let base = seq![eq_predicate("$label"@, label), eq_predicate("agent_id"@, agent_id)];
    match namespace {
        None => base,
        Some(ns) => base.push(eq_predicate("namespace"@, ns)),
    }
}

/// The nodes with the single id `id`.
pub open spec fn nodes_by_id(id: u64) -> JsonV {
    obj1("nodes"@, obj1("reference"@, obj1("ids"@, JsonV::Array(seq![JsonV::Int(id as int)]))))
}

/// String documents holding `names`, in order.
pub open spec fn names_spec(names: Seq<&str>) -> Seq<JsonV> {
    Seq::new(names.len(), |i: int| JsonV::Str(names[i]@))
}

/// `[key, value]` pairs, in order.
pub open spec fn pairs_spec(properties: Seq<(Seq<char>, JsonV)>) -> Seq<JsonV> {
    Seq::new(
        properties.len(),
        |i: int| JsonV::Array(seq![JsonV::Str(properties[i].0), properties[i].1]),
    )
}

pub open spec fn create_vector_index_spec(
    label: Seq<char>,
    property: Seq<char>,
    dimension: usize,
    metric: Seq<char>,
) -> JsonV {
    let node_vector = JsonV::Object(
        seq![
            ("label"@, JsonV::Str(label)),
            ("property"@, JsonV::Str(property)),
            ("dimension"@, JsonV::Int(dimension as int)),
            ("metric"@, JsonV::Str(metric)),
        ],
    );
    obj1(
        "create_index"@,
        JsonV::Object(
            seq![
                ("spec"@, obj1("node_vector"@, node_vector)),
                ("if_not_exists"@, JsonV::Bool(true)),
            ],
        ),
    )
}

pub open spec fn add_node_spec(label: Seq<char>, properties: Seq<(Seq<char>, JsonV)>) -> JsonV {
    obj1(
        "add_n"@,
        JsonV::Object(
            seq![
                ("label"@, JsonV::Str(label)),
                ("properties"@, JsonV::Array(pairs_spec(properties))),
            ],
        ),
    )
}

pub open spec fn vector_search_spec(
    label: Seq<char>,
    property: Seq<char>,
    vector: Seq<u64>,
    k: u32,
    agent_id: Seq<char>,
    namespace: Option<Seq<char>>,
) -> JsonV {
    obj1(
        "vector_search_nodes_within"@,
        JsonV::Object(
            seq![
                ("input"@, obj1("nodes_where"@, obj1("predicate"@, search_predicate(agent_id, namespace)))),
                ("label"@, JsonV::Str(label)),
                ("property"@, JsonV::Str(property)),
                ("query_vector"@, prop_spec("f32_array"@, JsonV::Array(floats_spec(vector)))),
                ("k"@, obj1("literal"@, JsonV::Int(k as int))),
            ],
        ),
    )
}

pub open spec fn value_map_spec(input: JsonV, properties: Seq<&str>) -> JsonV {
    obj1(
        "value_map"@,
        JsonV::Object(
            seq![("input"@, input), ("properties"@, JsonV::Array(names_spec(properties)))],
        ),
    )
}

pub open spec fn drop_by_id_spec(id: u64) -> JsonV {
    obj1("drop"@, obj1("input"@, nodes_by_id(id)))
}

pub open spec fn count_spec(label: Seq<char>, agent_id: Seq<char>, namespace: Option<Seq<char>>) -> JsonV {
    obj1(
        "count"@,
        obj1(
            "input"@,
            obj1("nodes_where"@, obj1("predicate"@, all_of(count_predicates(label, agent_id, namespace)))),
        ),
    )
}

/// The predicate `property == value`.
fn eq_predicate_json(property: &str, value: &str) -> (r: Json)
    ensures
        r@ == eq_predicate(property@, value@),
{
    Json::obj1(
        "eq",
        Json::obj2(
            "left",
            Json::obj1("property", Json::string(property)),
            "right",
            Json::obj1("constant", Json::obj1("string", Json::string(value))),
        ),
    )
}

/// The conjunction of `predicates`.
fn all_of_json(predicates: Vec<Json>) -> (r: Json)
    ensures
        r@ == all_of(view_items(predicates@)),
{
    Json::obj1("and", Json::obj1("predicates", Json::array(predicates)))
}

/// The nodes with the single id `id`.
fn nodes_by_id_json(id: u64) -> (r: Json)
    ensures
        r@ == nodes_by_id(id),
{
    Json::obj1("nodes", Json::obj1("reference", Json::obj1("ids", Json::arr1(Json::UInt(id)))))
}

/// The array of the strings `names`.
fn names_json(names: &[&str]) -> (r: Json)
    ensures
        r@ == JsonV::Array(names_spec(names@)),
{
    let mut items: Vec<Json> = Vec::new();
    proof {
        assert(view_items(items@) == Seq::<JsonV>::empty());
    }
    let mut i: usize = 0;
    while i < names.len()
        invariant
            0 <= i <= names@.len(),
            view_items(items@) =~= names_spec(names@).take(i as int),
        decreases names@.len() - i,
    {
        Json::push_item(&mut items, Json::string(names[i]));
        assert(view_items(items@) =~= names_spec(names@).take(i + 1));
        i = i + 1;
    }
    assert(names_spec(names@).take(names@.len() as int) =~= names_spec(names@));
    Json::array(items)
}

pub fn create_vector_index(label: &str, property: &str, dimension: usize, metric: &str) -> (r: Json)
    ensures
        r@ == create_vector_index_spec(label@, property@, dimension, metric@),
{
    let node_vector = Json::obj4(
        "label",
        Json::string(label),
        "property",
        Json::string(property),
        "dimension",
        Json::UInt(dimension as u64),
        "metric",
        Json::string(metric),
    );
    Json::obj1(
        "create_index",
        Json::obj2("spec", Json::obj1("node_vector", node_vector), "if_not_exists", Json::Bool(true)),
    )
}

pub fn add_node(label: &str, properties: Vec<(String, Json)>) -> (r: Json)
    ensures
        r@ == add_node_spec(label@, view_members(properties@)),
{
    let ghost target = pairs_spec(view_members(properties@));
    proof {
        crate::json::lemma_view_members(properties@);
    }
    let mut props: Vec<Json> = Vec::new();
    proof {
        assert(view_items(props@) == Seq::<JsonV>::empty());
    }
    let mut i: usize = 0;
    while i < properties.len()
        invariant
            0 <= i <= properties@.len(),
            target == pairs_spec(view_members(properties@)),
            view_members(properties@).len() == properties@.len(),
            forall|j: int|
                0 <= j < properties@.len() ==> #[trigger] view_members(properties@)[j] == (
                    properties@[j].0@,
                    properties@[j].1@,
                ),
            view_items(props@) =~= target.take(i as int),
        decreases properties@.len() - i,
    {
        let pair = Json::arr2(Json::Str(properties[i].0.clone()), properties[i].1.copy());
        Json::push_item(&mut props, pair);
        assert(view_items(props@) =~= target.take(i + 1));
        i = i + 1;
    }
    assert(target.take(properties@.len() as int) =~= target);
    Json::obj1("add_n", Json::obj2("label", Json::string(label), "properties", Json::array(props)))
}

/// Scoped vector search: results always belong to `agent_id`, with an
/// optional extra restriction to one namespace within that agent.
pub fn vector_search(
    label: &str,
    property: &str,
    vector: &[u64],
    k: u32,
    agent_id: &str,
    namespace: Option<&str>,
) -> (r: Json)
    ensures
        r@ == vector_search_spec(label@, property@, vector@, k, agent_id@, opt_str(namespace)),
{
    let predicate = match namespace {
        None => eq_predicate_json("agent_id", agent_id),
        Some(ns) => {
            let mut predicates: Vec<Json> = Vec::new();
            proof {
                assert(view_items(predicates@) == Seq::<JsonV>::empty());
            }
            Json::push_item(&mut predicates, eq_predicate_json("agent_id", agent_id));
            Json::push_item(&mut predicates, eq_predicate_json("namespace", ns));
            assert(view_items(predicates@) =~= seq![
                eq_predicate("agent_id"@, agent_id@),
                eq_predicate("namespace"@, ns@),
            ]);
            all_of_json(predicates)
        },
    };
    Json::obj1(
        "vector_search_nodes_within",
        Json::obj5(
            "input",
            Json::obj1("nodes_where", Json::obj1("predicate", predicate)),
            "label",
            Json::string(label),
            "property",
            Json::string(property),
            "query_vector",
            prop_f32_array(vector),
            "k",
            Json::obj1("literal", Json::UInt(k as u64)),
        ),
    )
}

pub fn value_map(input: Json, properties: &[&str]) -> (r: Json)
    ensures
        r@ == value_map_spec(input@, properties@),
{
    Json::obj1("value_map", Json::obj2("input", input, "properties", names_json(properties)))
}

pub fn drop_by_id(id: u64) -> (r: Json)
    ensures
        r@ == drop_by_id_spec(id),
{
    Json::obj1("drop", Json::obj1("input", nodes_by_id_json(id)))
}

pub fn node_props(id: u64, properties: &[&str]) -> (r: Json)
    ensures
        r@ == value_map_spec(nodes_by_id(id), properties@),
{
    value_map(nodes_by_id_json(id), properties)
}

pub fn count(label: &str, agent_id: &str, namespace: Option<&str>) -> (r: Json)
    ensures
        r@ == count_spec(label@, agent_id@, opt_str(namespace)),
{
    let mut predicates: Vec<Json> = Vec::new();
    proof {
        assert(view_items(predicates@) == Seq::<JsonV>::empty());
    }
    Json::push_item(&mut predicates, eq_predicate_json("$label", label));
    Json::push_item(&mut predicates, eq_predicate_json("agent_id", agent_id));
    if let Some(ns) = namespace {
        Json::push_item(&mut predicates, eq_predicate_json("namespace", ns));
    }
    assert(view_items(predicates@) =~= count_predicates(label@, agent_id@, opt_str(namespace)));
    Json::obj1(
        "count",
        Json::obj1("input", Json::obj1("nodes_where", Json::obj1("predicate", all_of_json(predicates)))),
    )
}

/// The member `key` of a document, `null` when it has none.
pub open spec fn at(doc: JsonV, key: Seq<char>) -> JsonV {
    crate::json::or_null(crate::json::get_spec(doc, key))
}

/// The conditions a predicate requires together: those of a conjunction, else the predicate itself.
pub open spec fn conjuncts(pred: JsonV) -> Seq<JsonV> {
    match at(at(pred, "and"@), "predicates"@) {
        JsonV::Array(ps) => ps,
        _ => seq![pred],
    }
}

/// Whether a predicate requires `property == value` of every node it lets through.
pub open spec fn filters_on(pred: JsonV, property: Seq<char>, value: Seq<char>) -> bool {
    conjuncts(pred).contains(eq_predicate(property, value))
}

/// The predicate that selects the nodes a vector search looks at.
pub open spec fn search_filter(search: JsonV) -> JsonV {
    at(at(at(at(search, "vector_search_nodes_within"@), "input"@), "nodes_where"@), "predicate"@)
}

/// The predicate that selects the nodes a count counts.
pub open spec fn count_filter(query: JsonV) -> JsonV {
    at(at(at(at(query, "count"@), "input"@), "nodes_where"@), "predicate"@)
}

/// A single `eq` predicate is its own only condition.
proof fn lemma_eq_predicate_conjuncts(property: Seq<char>, value: Seq<char>)
    ensures
        conjuncts(eq_predicate(property, value)) == seq![eq_predicate(property, value)],
{
    reveal_strlit("eq");
    reveal_strlit("and");
    assert("eq"@.len() != "and"@.len());
    let m = seq![(
        "eq"@,
        JsonV::Object(
            seq![
                ("left"@, obj1("property"@, JsonV::Str(property))),
                ("right"@, obj1("constant"@, obj1("string"@, JsonV::Str(value)))),
            ],
        ),
    )];
    crate::json::lemma_lookup_absent(m, "and"@);
}

/// Vector searches always scope to the agent: the search only looks at nodes whose
/// `agent_id` is the agent, and, when a namespace is given, whose `namespace` is that
/// namespace; without a namespace the agent is the only condition.
pub proof fn lemma_search_scoped_to_agent(
    label: Seq<char>,
    property: Seq<char>,
    vector: Seq<u64>,
    k: u32,
    agent_id: Seq<char>,
    namespace: Option<Seq<char>>,
)
    ensures
        ({
            let pred = search_filter(vector_search_spec(label, property, vector, k, agent_id, namespace));
            &&& filters_on(pred, "agent_id"@, agent_id)
            &&& namespace matches Some(ns) ==> filters_on(pred, "namespace"@, ns)
            &&& namespace is None ==> conjuncts(pred) == seq![eq_predicate("agent_id"@, agent_id)]
        }),
{
    reveal_strlit("input");
    reveal_strlit("label");
    reveal_strlit("property");
    reveal_strlit("query_vector");
    reveal_strlit("k");
    reveal_strlit("and");
    reveal_strlit("predicates");
    let search = vector_search_spec(label, property, vector, k, agent_id, namespace);
    let members = seq![
        ("input"@, obj1("nodes_where"@, obj1("predicate"@, search_predicate(agent_id, namespace)))),
        ("label"@, JsonV::Str(label)),
        ("property"@, JsonV::Str(property)),
        ("query_vector"@, prop_spec("f32_array"@, JsonV::Array(floats_spec(vector)))),
        ("k"@, obj1("literal"@, JsonV::Int(k as int))),
    ];
    assert("input"@[0] != "label"@[0]);
    assert("input"@[0] != "property"@[0]);
    assert("input"@.len() != "query_vector"@.len());
    assert("input"@.len() != "k"@.len());
    crate::json::lemma_lookup_first(members, "input"@);
    let pred = search_predicate(agent_id, namespace);
    assert(search_filter(search) == pred);
    match namespace {
        None => {
            lemma_eq_predicate_conjuncts("agent_id"@, agent_id);
            assert(conjuncts(pred)[0] == eq_predicate("agent_id"@, agent_id));
        },
        Some(ns) => {
            let ps = seq![eq_predicate("agent_id"@, agent_id), eq_predicate("namespace"@, ns)];
            assert(conjuncts(pred) == ps);
            assert(ps[0] == eq_predicate("agent_id"@, agent_id));
            assert(ps[1] == eq_predicate("namespace"@, ns));
        },
    }
}

/// Counts always scope to the label and the agent, and, when a namespace is given, to it.
pub proof fn lemma_count_scoped_to_agent(label: Seq<char>, agent_id: Seq<char>, namespace: Option<Seq<char>>)
    ensures
        ({
            let pred = count_filter(count_spec(label, agent_id, namespace));
            &&& filters_on(pred, "$label"@, label)
            &&& filters_on(pred, "agent_id"@, agent_id)
            &&& namespace matches Some(ns) ==> filters_on(pred, "namespace"@, ns)
        }),
{
    let ps = count_predicates(label, agent_id, namespace);
    let pred = count_filter(count_spec(label, agent_id, namespace));
    assert(pred == all_of(ps));
    assert(conjuncts(pred) == ps);
    assert(ps[0] == eq_predicate("$label"@, label));
    assert(ps[1] == eq_predicate("agent_id"@, agent_id));
    if let Some(ns) = namespace {
        assert(ps[2] == eq_predicate("namespace"@, ns));
    }
}

/// An `eq` predicate compares the node's `property` (on the left) with the string `value`
/// (on the right, as a string constant).
pub proof fn lemma_eq_predicate_compares(property: Seq<char>, value: Seq<char>)
    ensures
        ({
            let eq = at(eq_predicate(property, value), "eq"@);
            &&& at(at(eq, "left"@), "property"@) == JsonV::Str(property)
            &&& at(at(at(eq, "right"@), "constant"@), "string"@) == JsonV::Str(value)
        }),
{
    reveal_strlit("left");
    reveal_strlit("right");
    let m = seq![
        ("left"@, obj1("property"@, JsonV::Str(property))),
        ("right"@, obj1("constant"@, obj1("string"@, JsonV::Str(value)))),
    ];
    assert("left"@.len() != "right"@.len());
    crate::json::lemma_lookup_at(m, "left"@, 0);
    crate::json::lemma_lookup_at(m, "right"@, 1);
}

} // verus!
