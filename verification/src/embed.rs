//! OpenAI-compatible embeddings client (works with llama-server /v1/embeddings).
use vstd::prelude::*;
use vstd::string::StringExecFns;

use crate::helix::{is_success, success};
use crate::json::{get_spec, lemma_view_items, or_null, view_items, Json, JsonV};
use crate::text::{strip_end, strip_end_char};

verus! {

/// The embeddings endpoint and the model and key it is called with.
pub struct Embedder {
    base_url: String,
    model: String,
    api_key: String,
}

/// What an embeddings reply can be refused for, once it has been parsed.
#[derive(Debug, PartialEq)]
pub enum EmbedError {
    /// The request was answered with this non-2xx status.
    Failed(u16),
    /// The reply holds no `data` array.
    NoData,
    /// An item's `embedding` is not an array of numbers.
    BadVector,
}

/// Whether a document is a number.
pub open spec fn is_number(v: JsonV) -> bool {
    v is Int || v is Float
}

/// The numbers of an item's `embedding` (absent reads as `null`), when it is an array of numbers.
pub open spec fn vector_of(item: JsonV) -> Option<Seq<JsonV>> {
    match or_null(get_spec(item, "embedding"@)) {
        JsonV::Array(xs) => if forall|j: int| 0 <= j < xs.len() ==> is_number(#[trigger] xs[j]) {
            Some(xs)
        } else {
            None
        },
        _ => None,
    }
}

/// The vectors an embeddings reply with `status` and `body` carries, or why it is refused.
pub open spec fn embeddings_spec(status: u16, body: JsonV) -> Result<Seq<Seq<JsonV>>, EmbedError> {
    if !success(status) {
        Err(EmbedError::Failed(status))
    } else {
        match get_spec(body, "data"@) {
            Some(JsonV::Array(items)) => if forall|i: int|
                0 <= i < items.len() ==> #[trigger] vector_of(items[i]) is Some {
                Ok(Seq::new(items.len(), |i: int| vector_of(items[i])->Some_0))
            } else {
                Err(EmbedError::BadVector)
            },
            _ => Err(EmbedError::NoData),
        }
    }
}

/// The model of the vectors read from a reply: one sequence of numbers per vector, in order.
pub open spec fn vectors_view(v: Seq<Vec<Json>>) -> Seq<Seq<JsonV>> {
    Seq::new(v.len(), |i: int| view_items(v[i]@))
}

impl Embedder {
    pub closed spec fn base_url_spec(&self) -> Seq<char> {
        self.base_url@
    }

    pub closed spec fn model_spec(&self) -> Seq<char> {
        self.model@
    }

    pub closed spec fn api_key_spec(&self) -> Seq<char> {
        self.api_key@
    }

    /// A client of the endpoint at `base_url` (trailing slashes removed) for `model`, sending `api_key`.
    pub fn new(base_url: &str, model: &str, api_key: &str) -> (r: Embedder)
        ensures
            r.base_url_spec() == strip_end(base_url@, '/'),
            r.model_spec() == model@,
            r.api_key_spec() == api_key@,
    {
        Embedder {
            base_url: strip_end_char(base_url, '/'),
            model: String::from_str(model),
            api_key: String::from_str(api_key),
        }
    }

    /// The URL embeddings are requested from.
    pub fn embeddings_url(&self) -> (r: String)
        ensures
            r@ == self.base_url_spec() + "/embeddings"@,
    {
        self.base_url.clone().concat("/embeddings")
    }

    /// The bearer token sent with a request: the key, when one is set.
    pub fn bearer_token(&self) -> (r: Option<&str>)
        ensures
            match r {
                Some(t) => self.api_key_spec().len() > 0 && t@ == self.api_key_spec(),
                None => self.api_key_spec().len() == 0,
            },
    {
        if self.api_key.as_str().is_empty() {
            None
        } else {
            Some(self.api_key.as_str())
        }
    }

    /// The body of a request for the embeddings of `inputs`.
    pub fn request_body(&self, inputs: &[String]) -> (r: Json)
        ensures
            r@ == JsonV::Object(
                seq![
                    ("model"@, JsonV::Str(self.model_spec())),
                    ("input"@, JsonV::Array(Seq::new(inputs@.len(), |i: int| JsonV::Str(inputs@[i]@)))),
                ],
            ),
    {
        let ghost target = Seq::new(inputs@.len(), |i: int| JsonV::Str(inputs@[i]@));
        let mut items: Vec<Json> = Vec::new();
        proof {
            assert(view_items(items@) == Seq::<JsonV>::empty());
        }
        let mut i: usize = 0;
        while i < inputs.len()
            invariant
                0 <= i <= inputs@.len(),
                target == Seq::new(inputs@.len(), |i: int| JsonV::Str(inputs@[i]@)),
                view_items(items@) =~= target.take(i as int),
            decreases inputs@.len() - i,
        {
            Json::push_item(&mut items, Json::Str(inputs[i].clone()));
            assert(view_items(items@) =~= target.take(i + 1));
            i = i + 1;
        }
        assert(target.take(inputs@.len() as int) =~= target);
        Json::obj2("model", Json::Str(self.model.clone()), "input", Json::array(items))
    }

    /// The numbers of `item`'s `embedding`, when it is an array of numbers.
    #[verifier::loop_isolation(false)]
    fn number_vector(item: &Json) -> (r: Option<Vec<Json>>)
        ensures
            match r {
                Some(v) => vector_of(item@) == Some(view_items(v@)),
                None => vector_of(item@) is None,
            },
    {
        let e = match item.get("embedding") {
            Some(e) => e,
            None => return None,
        };
        let xs = match e.as_array() {
            Some(xs) => xs,
            None => return None,
        };
        proof {
            lemma_view_items(xs@);
        }
        let mut j: usize = 0;
        while j < xs.len()
            invariant
                0 <= j <= xs@.len(),
                view_items(xs@).len() == xs@.len(),
                forall|t: int| 0 <= t < xs@.len() ==> #[trigger] view_items(xs@)[t] == xs@[t]@,
                forall|t: int| 0 <= t < j ==> is_number(#[trigger] view_items(xs@)[t]),
            decreases xs@.len() - j,
        {
            if !xs[j].is_number() {
                assert(!is_number(view_items(xs@)[j as int]));
                return None;
            }
            j = j + 1;
        }
        Some(Json::copy_items(xs))
    }

    /// The vectors an embeddings reply with `status` and parsed `body` carries, or why it is refused.
    #[verifier::loop_isolation(false)]
    pub fn vectors(status: u16, body: &Json) -> (r: Result<Vec<Vec<Json>>, EmbedError>)
        ensures
            match r {
                Ok(v) => embeddings_spec(status, body@) == Ok::<Seq<Seq<JsonV>>, EmbedError>(vectors_view(v@)),
                Err(e) => embeddings_spec(status, body@) == Err::<Seq<Seq<JsonV>>, EmbedError>(e),
            },
    {
        if !is_success(status) {
            return Err(EmbedError::Failed(status));
        }
        let data = match body.get("data") {
            Some(d) => match d.as_array() {
                Some(items) => items,
                None => return Err(EmbedError::NoData),
            },
            None => return Err(EmbedError::NoData),
        };
        let ghost items = view_items(data@);
        proof {
            lemma_view_items(data@);
        }
        let mut out: Vec<Vec<Json>> = Vec::new();
        let mut i: usize = 0;
        while i < data.len()
            invariant
                0 <= i <= data@.len(),
                items == view_items(data@),
                items.len() == data@.len(),
                forall|t: int| 0 <= t < data@.len() ==> #[trigger] items[t] == data@[t]@,
                out@.len() == i,
                forall|t: int| 0 <= t < i ==> vector_of(#[trigger] items[t]) == Some(view_items(out@[t]@)),
            decreases data@.len() - i,
        {
            match Embedder::number_vector(&data[i]) {
                Some(v) => {
                    out.push(v);
                },
                None => {
                    assert(vector_of(items[i as int]) is None);
                    return Err(EmbedError::BadVector);
                },
            }
            i = i + 1;
        }
        assert(vectors_view(out@) =~= Seq::new(items.len(), |t: int| vector_of(items[t])->Some_0));
        Ok(out)
    }
}

/// A 2xx reply whose `data` items all carry an array of numbers as `embedding` gives one
/// vector per item, in order, each the item's numbers; a non-2xx status is refused with it.
pub proof fn lemma_embeddings_one_vector_per_item(status: u16, body: JsonV, items: Seq<JsonV>)
    requires
        get_spec(body, "data"@) == Some(JsonV::Array(items)),
    ensures
        !success(status) ==> embeddings_spec(status, body) == Err::<Seq<Seq<JsonV>>, EmbedError>(
            EmbedError::Failed(status),
        ),
        success(status) && (forall|i: int|
            0 <= i < items.len() ==> (#[trigger] get_spec(items[i], "embedding"@) matches Some(
                JsonV::Array(xs),
            ) && forall|j: int| 0 <= j < xs.len() ==> is_number(#[trigger] xs[j]))) ==> (
        embeddings_spec(status, body) matches Ok(vs) && vs.len() == items.len() && forall|i: int|
            0 <= i < items.len() ==> get_spec(items[i], "embedding"@) == Some(
                JsonV::Array(#[trigger] vs[i]),
            )),
{
    if success(status) && (forall|i: int|
        0 <= i < items.len() ==> (#[trigger] get_spec(items[i], "embedding"@) matches Some(
            JsonV::Array(xs),
        ) && forall|j: int| 0 <= j < xs.len() ==> is_number(#[trigger] xs[j]))) {
        assert forall|i: int| 0 <= i < items.len() implies #[trigger] vector_of(items[i]) is Some && get_spec(items[i], "embedding"@) == Some(JsonV::Array(vector_of(items[i])->Some_0)) by {
            assert(get_spec(items[i], "embedding"@) is Some);
        }
    }
}

} // verus!
