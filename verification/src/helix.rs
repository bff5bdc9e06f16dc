use vstd::prelude::*;
use vstd::string::StringExecFns;

use crate::json::{get_spec, lemma_lookup_at, obj1, view_items, Json, JsonV};
use crate::text::{strip_end, strip_end_char};

pub mod steps;

verus! {

broadcast use vstd::string::group_string_axioms;

/// A property value in the Helix encoding: `{"value": {kind: v}}`.
pub open spec fn prop_spec(kind: Seq<char>, v: JsonV) -> JsonV {
    obj1("value"@, obj1(kind, v))
}

/// The numbers whose binary64 bit patterns are `bits`, in order.
pub open spec fn floats_spec(bits: Seq<u64>) -> Seq<JsonV> {
    Seq::new(bits.len(), |i: int| JsonV::Float(bits[i]))
}

/// A string property.
pub fn prop_string(s: &str) -> (r: Json)
    ensures
        r@ == prop_spec("string"@, JsonV::Str(s@)),
{
    Json::obj1("value", Json::obj1("string", Json::string(s)))
}

/// A single-precision property, given by the bit pattern of its value widened to binary64.
pub fn prop_f32(bits: u64) -> (r: Json)
    ensures
        r@ == prop_spec("f32"@, JsonV::Float(bits)),
{
    Json::obj1("value", Json::obj1("f32", Json::Float(bits)))
}

/// A 64-bit integer property.
pub fn prop_i64(i: i64) -> (r: Json)
    ensures
        r@ == prop_spec("i64"@, JsonV::Int(i as int)),
{
    Json::obj1("value", Json::obj1("i64", Json::Int(i)))
}

/// The array of numbers whose binary64 bit patterns are `bits`.
pub fn float_array(bits: &[u64]) -> (r: Json)
    ensures
        r@ == JsonV::Array(floats_spec(bits@)),
{
    let mut items: Vec<Json> = Vec::new();
    proof {
        assert(view_items(items@) == Seq::<JsonV>::empty());
    }
    let mut i: usize = 0;
    while i < bits.len()
        invariant
            0 <= i <= bits@.len(),
            view_items(items@) =~= floats_spec(bits@).take(i as int),
        decreases bits@.len() - i,
    {
        Json::push_item(&mut items, Json::Float(bits[i]));
        assert(view_items(items@) =~= floats_spec(bits@).take(i + 1));
        i = i + 1;
    }
    assert(floats_spec(bits@).take(bits@.len() as int) =~= floats_spec(bits@));
    Json::array(items)
}

/// A single-precision vector property, given by the bit patterns of its components widened to binary64.
pub fn prop_f32_array(v: &[u64]) -> (r: Json)
    ensures
        r@ == prop_spec("f32_array"@, JsonV::Array(floats_spec(v@))),
{
    Json::obj1("value", Json::obj1("f32_array", float_array(v)))
}

/// A 2xx HTTP status.
pub open spec fn success(status: u16) -> bool {
    200 <= status <= 299
}

/// Whether `status` is a 2xx HTTP status.
pub fn is_success(status: u16) -> (r: bool)
    ensures
        r == success(status),
{
    200 <= status && status <= 299
}

/// What a call to the Helix server can fail with, once the server has answered.
#[derive(Debug, PartialEq)]
pub enum HelixError {
    /// The health check was answered with this status.
    Unhealthy(u16),
    /// The named query was answered with this status and body.
    QueryFailed { name: String, status: u16, body: String },
}

/// The batch that `HelixClient::query` posts: one entry named `name` with `root`,
/// returning that name, under `request_type`.
pub open spec fn query_body_spec(name: Seq<char>, request_type: Seq<char>, root: JsonV) -> JsonV {
    let entry = obj1("query"@, JsonV::Object(seq![("name"@, JsonV::Str(name)), ("root"@, root)]));
    let batch = JsonV::Object(
        seq![
            ("entries"@, JsonV::Array(seq![entry])),
            ("returns"@, JsonV::Array(seq![JsonV::Str(name)])),
        ],
    );
    JsonV::Object(
        seq![
            ("request_type"@, JsonV::Str(request_type)),
            ("query_name"@, JsonV::Str(name)),
            ("query"@, obj1(request_type, batch)),
        ],
    )
}

/// Client for the HelixDB v2 HTTP query API: its base URL.
pub struct HelixClient {
    base_url: String,
}

impl View for HelixClient {
    type V = Seq<char>;

    closed spec fn view(&self) -> Seq<char> {
        self.base_url@
    }
}

impl HelixClient {
    /// A client for the server at `base_url`, with trailing slashes removed.
    pub fn new(base_url: &str) -> (r: HelixClient)
        ensures
            r@ == strip_end(base_url@, '/'),
    {
        HelixClient { base_url: strip_end_char(base_url, '/') }
    }

    /// The URL of the health check.
    pub fn health_url(&self) -> (r: String)
        ensures
            r@ == self@ + "/healthz"@,
    {
        self.base_url.clone().concat("/healthz")
    }

    /// The URL queries are posted to.
    pub fn query_url(&self) -> (r: String)
        ensures
            r@ == self@ + "/v2/query"@,
    {
        self.base_url.clone().concat("/v2/query")
    }

    /// The health check's verdict on the status it was answered with.
    pub fn health(&self, status: u16) -> (r: Result<(), HelixError>)
        ensures
            r == (if success(status) {
                Ok(())
            } else {
                Err(HelixError::Unhealthy(status))
            }),
    {
        if is_success(status) {
            Ok(())
        } else {
            Err(HelixError::Unhealthy(status))
        }
    }

    /// The body posted for the query `name` of kind `request_type` (`read` or `write`) with `root`.
    pub fn query_body(name: &str, request_type: &str, root: Json) -> (r: Json)
        ensures
            r@ == query_body_spec(name@, request_type@, root@),
    {
        let entry = Json::obj1("query", Json::obj2("name", Json::string(name), "root", root));
        let batch = Json::obj2(
            "entries",
            Json::arr1(entry),
            "returns",
            Json::arr1(Json::string(name)),
        );
        Json::obj3(
            "request_type",
            Json::string(request_type),
            "query_name",
            Json::string(name),
            "query",
            Json::obj1(request_type, batch),
        )
    }

    /// The verdict on the answer to the query `name`: its body, to be parsed, when the status is 2xx.
    pub fn query_reply(name: &str, status: u16, body: String) -> (r: Result<String, HelixError>)
        ensures
            success(status) ==> r == Ok::<String, HelixError>(body),
            !success(status) ==> (r matches Err(HelixError::QueryFailed { name: n, status: s, body: b })
                && n@ == name@ && s == status && b == body),
    {
        if is_success(status) {
            Ok(body)
        } else {
            Err(HelixError::QueryFailed { name: String::from_str(name), status, body })
        }
    }
}

/// A single-precision vector property holds exactly the components given, in order:
/// item `i` is the number whose bit pattern is `bits[i]`.
pub proof fn lemma_f32_array_holds_components(bits: Seq<u64>)
    ensures
        get_spec(prop_spec("f32_array"@, JsonV::Array(floats_spec(bits))), "value"@) matches Some(v)
            && get_spec(v, "f32_array"@) matches Some(JsonV::Array(xs)) && xs.len() == bits.len()
            && forall|i: int| 0 <= i < bits.len() ==> #[trigger] xs[i] == JsonV::Float(bits[i]),
{
}

/// The body posted for a query names its kind and name, and files one batch under the
/// query's kind: its single entry is the query `name` with `root`, and it returns `name`.
pub proof fn lemma_query_body_files_batch_under_request_type(
    name: Seq<char>,
    request_type: Seq<char>,
    root: JsonV,
)
    ensures
        ({
            let body = query_body_spec(name, request_type, root);
            &&& get_spec(body, "request_type"@) == Some(JsonV::Str(request_type))
            &&& get_spec(body, "query_name"@) == Some(JsonV::Str(name))
            &&& get_spec(body, "query"@) matches Some(JsonV::Object(q)) && q.len() == 1 && q[0].0
                == request_type && {
                let batch = q[0].1;
                &&& get_spec(batch, "returns"@) == Some(JsonV::Array(seq![JsonV::Str(name)]))
                &&& get_spec(batch, "entries"@) matches Some(JsonV::Array(es)) && es.len() == 1 && {
                    let e = get_spec(es[0], "query"@);
                    &&& e is Some
                    &&& get_spec(e->Some_0, "name"@) == Some(JsonV::Str(name))
                    &&& get_spec(e->Some_0, "root"@) == Some(root)
                }
            }
        }),
{
    reveal_strlit("request_type");
    reveal_strlit("query_name");
    reveal_strlit("query");
    reveal_strlit("entries");
    reveal_strlit("returns");
    reveal_strlit("name");
    reveal_strlit("root");
    let entry = obj1("query"@, JsonV::Object(seq![("name"@, JsonV::Str(name)), ("root"@, root)]));
    let batch_m = seq![
        ("entries"@, JsonV::Array(seq![entry])),
        ("returns"@, JsonV::Array(seq![JsonV::Str(name)])),
    ];
    let body_m = seq![
        ("request_type"@, JsonV::Str(request_type)),
        ("query_name"@, JsonV::Str(name)),
        ("query"@, obj1(request_type, JsonV::Object(batch_m))),
    ];
    assert("request_type"@.len() == 12 && "query_name"@.len() == 10 && "query"@.len() == 5);
    assert("entries"@.len() == 7 && "returns"@.len() == 7 && "entries"@[0] != "returns"@[0]);
    assert("name"@.len() == 4 && "root"@.len() == 4 && "name"@[0] != "root"@[0]);
    lemma_lookup_at(body_m, "request_type"@, 0);
    lemma_lookup_at(body_m, "query_name"@, 1);
    lemma_lookup_at(body_m, "query"@, 2);
    lemma_lookup_at(batch_m, "entries"@, 0);
    lemma_lookup_at(batch_m, "returns"@, 1);
    let em = seq![("name"@, JsonV::Str(name)), ("root"@, root)];
    lemma_lookup_at(em, "name"@, 0);
    lemma_lookup_at(em, "root"@, 1);
}

} // verus!
