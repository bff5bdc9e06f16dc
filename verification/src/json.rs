use vstd::prelude::*;
use vstd::string::StringExecFns;

verus! {

/// A JSON document as the library builds and reads it.
#[derive(Debug, PartialEq)]
pub enum Json {
    Null,
    Bool(bool),
    Int(i64),
    UInt(u64),
    /// A floating-point number, held as the bit pattern of an IEEE-754 binary64 value.
    Float(u64),
    Str(String),
    Array(Vec<Json>),
    /// An object as its members in order; a key that occurs twice is read at its last occurrence.
    Object(Vec<(String, Json)>),
}

/// The mathematical model of a JSON document: both integer forms are one number.
pub enum JsonV {
    Null,
    Bool(bool),
    Int(int),
    Float(u64),
    Str(Seq<char>),
    Array(Seq<JsonV>),
    Object(Seq<(Seq<char>, JsonV)>),
}

impl View for Json {
    type V = JsonV;

    open spec fn view(&self) -> JsonV
        decreases self, 0nat,
    {
        match self {
            Json::Null => JsonV::Null,
            Json::Bool(b) => JsonV::Bool(*b),
            Json::Int(i) => JsonV::Int(*i as int),
            Json::UInt(u) => JsonV::Int(*u as int),
            Json::Float(bits) => JsonV::Float(*bits),
            Json::Str(s) => JsonV::Str(s@),
            Json::Array(items) => JsonV::Array(view_items(items@)),
            Json::Object(members) => JsonV::Object(view_members(members@)),
        }
    }
}

/// The model of a sequence of documents, item by item.
pub open spec fn view_items(items: Seq<Json>) -> Seq<JsonV>
    decreases items, 1nat,
{
    if items.len() == 0 {
        Seq::empty()
    } else {
        view_items(items.subrange(0, items.len() - 1)).push(items[items.len() - 1].view())
    }
}

/// The model of a sequence of object members, member by member.
pub open spec fn view_members(members: Seq<(String, Json)>) -> Seq<(Seq<char>, JsonV)>
    decreases members, 1nat,
{
    if members.len() == 0 {
        Seq::empty()
    } else {
        let m = members[members.len() - 1];
        view_members(members.subrange(0, members.len() - 1)).push((m.0@, m.1.view()))
    }
}

/// The model of a sequence of documents has one item for each document, in order.
pub proof fn lemma_view_items(items: Seq<Json>)
    ensures
        view_items(items).len() == items.len(),
        forall|i: int| 0 <= i < items.len() ==> #[trigger] view_items(items)[i] == items[i]@,
    decreases items.len(),
{
    if items.len() == 0 {
        assert(view_items(items) == Seq::<JsonV>::empty());
    } else {
        lemma_view_items(items.subrange(0, items.len() - 1));
        assert(view_items(items) == view_items(items.subrange(0, items.len() - 1)).push(items[items.len() - 1].view()));
    }
}

/// Appending a document appends its model.
pub proof fn lemma_view_items_push(items: Seq<Json>, item: Json)
    ensures
        view_items(items.push(item)) == view_items(items).push(item@),
{
    assert(items.push(item).subrange(0, items.len() as int) =~= items);
}

/// The model of a sequence of members has one member for each member, in order.
pub proof fn lemma_view_members(members: Seq<(String, Json)>)
    ensures
        view_members(members).len() == members.len(),
        forall|i: int|
            0 <= i < members.len() ==> #[trigger] view_members(members)[i] == (
                members[i].0@,
                members[i].1@,
            ),
    decreases members.len(),
{
    if members.len() == 0 {
        assert(view_members(members) == Seq::<(Seq<char>, JsonV)>::empty());
    } else {
        let m = members[members.len() - 1];
        lemma_view_members(members.subrange(0, members.len() - 1));
        assert(view_members(members) == view_members(members.subrange(0, members.len() - 1)).push(
            (m.0@, m.1.view()),
        ));
    }
}

/// Appending a member appends its model.
pub proof fn lemma_view_members_push(members: Seq<(String, Json)>, m: (String, Json))
    ensures
        view_members(members.push(m)) == view_members(members).push((m.0@, m.1@)),
{
    assert(members.push(m).subrange(0, members.len() as int) =~= members);
}

/// The value stored under `key` among `members`: its last occurrence, if any.
pub open spec fn lookup(members: Seq<(Seq<char>, JsonV)>, key: Seq<char>) -> Option<JsonV>
    decreases members.len(),
{
    if members.len() == 0 {
        None
    } else if members.last().0 == key {
        Some(members.last().1)
    } else {
        lookup(members.drop_last(), key)
    }
}

/// A key that occurs only first is read at the first member.
pub proof fn lemma_lookup_first(members: Seq<(Seq<char>, JsonV)>, key: Seq<char>)
    requires
        members.len() > 0,
        members[0].0 == key,
        forall|j: int| 1 <= j < members.len() ==> #[trigger] members[j].0 != key,
    ensures
        lookup(members, key) == Some(members[0].1),
    decreases members.len(),
{
    if members.len() > 1 {
        lemma_lookup_first(members.drop_last(), key);
    }
}

/// A key is read at its last occurrence: at position `p` when no later member has it.
pub proof fn lemma_lookup_at(members: Seq<(Seq<char>, JsonV)>, key: Seq<char>, p: int)
    requires
        0 <= p < members.len(),
        members[p].0 == key,
        forall|j: int| p < j < members.len() ==> #[trigger] members[j].0 != key,
    ensures
        lookup(members, key) == Some(members[p].1),
    decreases members.len(),
{
    if members.len() - 1 > p {
        lemma_lookup_at(members.drop_last(), key, p);
    }
}

/// A key that occurs nowhere is not found.
pub proof fn lemma_lookup_absent(members: Seq<(Seq<char>, JsonV)>, key: Seq<char>)
    requires
        forall|j: int| 0 <= j < members.len() ==> #[trigger] members[j].0 != key,
    ensures
        lookup(members, key) is None,
    decreases members.len(),
{
    if members.len() > 0 {
        lemma_lookup_absent(members.drop_last(), key);
    }
}

/// Reading an object after a member is added: the added key reads as the added value,
/// every other key reads as before.
pub proof fn lemma_lookup_after_push(
    members: Seq<(Seq<char>, JsonV)>,
    key: Seq<char>,
    value: JsonV,
    other: Seq<char>,
)
    ensures
        lookup(members.push((key, value)), key) == Some(value),
        other != key ==> lookup(members.push((key, value)), other) == lookup(members, other),
{
    assert(members.push((key, value)).drop_last() =~= members);
}

/// `doc[key]` for an object, nothing for any other document.
pub open spec fn get_spec(doc: JsonV, key: Seq<char>) -> Option<JsonV> {
    match doc {
        JsonV::Object(members) => lookup(members, key),
        _ => None,
    }
}

/// The unsigned integer a document holds, if it holds one that fits in 64 bits.
pub open spec fn as_u64_spec(doc: JsonV) -> Option<u64> {
    match doc {
        JsonV::Int(n) => if 0 <= n <= u64::MAX {
            Some(n as u64)
        } else {
            None
        },
        _ => None,
    }
}

/// The text a document holds, if it is a string.
pub open spec fn as_str_spec(doc: JsonV) -> Option<Seq<char>> {
    match doc {
        JsonV::Str(s) => Some(s),
        _ => None,
    }
}

/// The items a document holds, if it is an array.
pub open spec fn as_array_spec(doc: JsonV) -> Option<Seq<JsonV>> {
    match doc {
        JsonV::Array(items) => Some(items),
        _ => None,
    }
}

/// An optional document, with absence written as `null`.
pub open spec fn or_null(doc: Option<JsonV>) -> JsonV {
    match doc {
        Some(d) => d,
        None => JsonV::Null,
    }
}

/// A one-member object.
pub open spec fn obj1(k1: Seq<char>, v1: JsonV) -> JsonV {
    JsonV::Object(seq![(k1, v1)])
}

impl Json {
    /// The string document holding `s`.
    pub fn string(s: &str) -> (r: Json)
        ensures
            r@ == JsonV::Str(s@),
    {
        Json::Str(String::from_str(s))
    }

    /// The array document holding `items`, in order.
    pub fn array(items: Vec<Json>) -> (r: Json)
        ensures
            r@ == JsonV::Array(view_items(items@)),
    {
        Json::Array(items)
    }

    /// The object document holding `members`, in order.
    pub fn object(members: Vec<(String, Json)>) -> (r: Json)
        ensures
            r@ == JsonV::Object(view_members(members@)),
    {
        Json::Object(members)
    }

    /// Appends the member `key: value` to `members`.
    pub fn push_member(members: &mut Vec<(String, Json)>, key: &str, value: Json)
        ensures
            view_members(final(members)@) == view_members(old(members)@).push((key@, value@)),
    {
        let ghost before = members@;
        let m = (String::from_str(key), value);
        members.push(m);
        proof {
            lemma_view_members_push(before, m);
        }
    }

    /// The object `{k1: v1}`.
    pub fn obj1(k1: &str, v1: Json) -> (r: Json)
        ensures
            r@ == JsonV::Object(seq![(k1@, v1@)]),
    {
        let mut m = Vec::new();
        proof {
            assert(view_members(m@) == Seq::<(Seq<char>, JsonV)>::empty());
        }
        Json::push_member(&mut m, k1, v1);
        assert(view_members(m@) =~= seq![(k1@, v1@)]);
        Json::object(m)
    }

    /// The object `{k1: v1, k2: v2}`.
    pub fn obj2(k1: &str, v1: Json, k2: &str, v2: Json) -> (r: Json)
        ensures
            r@ == JsonV::Object(seq![(k1@, v1@), (k2@, v2@)]),
    {
        let mut m = Vec::new();
        proof {
            assert(view_members(m@) == Seq::<(Seq<char>, JsonV)>::empty());
        }
        Json::push_member(&mut m, k1, v1);
        Json::push_member(&mut m, k2, v2);
        assert(view_members(m@) =~= seq![(k1@, v1@), (k2@, v2@)]);
        Json::object(m)
    }

    /// The object `{k1: v1, k2: v2, k3: v3}`.
    pub fn obj3(k1: &str, v1: Json, k2: &str, v2: Json, k3: &str, v3: Json) -> (r: Json)
        ensures
            r@ == JsonV::Object(seq![(k1@, v1@), (k2@, v2@), (k3@, v3@)]),
    {
        let mut m = Vec::new();
        proof {
            assert(view_members(m@) == Seq::<(Seq<char>, JsonV)>::empty());
        }
        Json::push_member(&mut m, k1, v1);
        Json::push_member(&mut m, k2, v2);
        Json::push_member(&mut m, k3, v3);
        assert(view_members(m@) =~= seq![(k1@, v1@), (k2@, v2@), (k3@, v3@)]);
        Json::object(m)
    }

    /// The object `{k1: v1, k2: v2, k3: v3, k4: v4}`.
    pub fn obj4(k1: &str, v1: Json, k2: &str, v2: Json, k3: &str, v3: Json, k4: &str, v4: Json) -> (r: Json)
        ensures
            r@ == JsonV::Object(seq![(k1@, v1@), (k2@, v2@), (k3@, v3@), (k4@, v4@)]),
    {
        let mut m = Vec::new();
        proof {
            assert(view_members(m@) == Seq::<(Seq<char>, JsonV)>::empty());
        }
        Json::push_member(&mut m, k1, v1);
        Json::push_member(&mut m, k2, v2);
        Json::push_member(&mut m, k3, v3);
        Json::push_member(&mut m, k4, v4);
        assert(view_members(m@) =~= seq![(k1@, v1@), (k2@, v2@), (k3@, v3@), (k4@, v4@)]);
        Json::object(m)
    }

    /// The object `{k1: v1, k2: v2, k3: v3, k4: v4, k5: v5}`.
    pub fn obj5(k1: &str, v1: Json, k2: &str, v2: Json, k3: &str, v3: Json, k4: &str, v4: Json, k5: &str, v5: Json) -> (r: Json)
        ensures
            r@ == JsonV::Object(seq![(k1@, v1@), (k2@, v2@), (k3@, v3@), (k4@, v4@), (k5@, v5@)]),
    {
        let mut m = Vec::new();
        proof {
            assert(view_members(m@) == Seq::<(Seq<char>, JsonV)>::empty());
        }
        Json::push_member(&mut m, k1, v1);
        Json::push_member(&mut m, k2, v2);
        Json::push_member(&mut m, k3, v3);
        Json::push_member(&mut m, k4, v4);
        Json::push_member(&mut m, k5, v5);
        assert(view_members(m@) =~= seq![(k1@, v1@), (k2@, v2@), (k3@, v3@), (k4@, v4@), (k5@, v5@)]);
        Json::object(m)
    }

    /// The object `{k1: v1, k2: v2, k3: v3, k4: v4, k5: v5, k6: v6}`.
    pub fn obj6(k1: &str, v1: Json, k2: &str, v2: Json, k3: &str, v3: Json, k4: &str, v4: Json, k5: &str, v5: Json, k6: &str, v6: Json) -> (r: Json)
        ensures
            r@ == JsonV::Object(seq![(k1@, v1@), (k2@, v2@), (k3@, v3@), (k4@, v4@), (k5@, v5@), (k6@, v6@)]),
    {
        let mut m = Vec::new();
        proof {
            assert(view_members(m@) == Seq::<(Seq<char>, JsonV)>::empty());
        }
        Json::push_member(&mut m, k1, v1);
        Json::push_member(&mut m, k2, v2);
        Json::push_member(&mut m, k3, v3);
        Json::push_member(&mut m, k4, v4);
        Json::push_member(&mut m, k5, v5);
        Json::push_member(&mut m, k6, v6);
        assert(view_members(m@) =~= seq![(k1@, v1@), (k2@, v2@), (k3@, v3@), (k4@, v4@), (k5@, v5@), (k6@, v6@)]);
        Json::object(m)
    }

    /// Appends `item` to `items`.
    pub fn push_item(items: &mut Vec<Json>, item: Json)
        ensures
            view_items(final(items)@) == view_items(old(items)@).push(item@),
    {
        let ghost before = items@;
        let ghost it = item;
        items.push(item);
        proof {
            lemma_view_items_push(before, it);
        }
    }

    /// The array `[i1]`.
    pub fn arr1(i1: Json) -> (r: Json)
        ensures
            r@ == JsonV::Array(seq![i1@]),
    {
        let mut items = Vec::new();
        proof {
            assert(view_items(items@) == Seq::<JsonV>::empty());
        }
        Json::push_item(&mut items, i1);
        assert(view_items(items@) =~= seq![i1@]);
        Json::array(items)
    }

    /// The array `[i1, i2]`.
    pub fn arr2(i1: Json, i2: Json) -> (r: Json)
        ensures
            r@ == JsonV::Array(seq![i1@, i2@]),
    {
        let mut items = Vec::new();
        proof {
            assert(view_items(items@) == Seq::<JsonV>::empty());
        }
        Json::push_item(&mut items, i1);
        Json::push_item(&mut items, i2);
        assert(view_items(items@) =~= seq![i1@, i2@]);
        Json::array(items)
    }

    /// The member stored under `key` when this is an object (its last occurrence).
    #[verifier::loop_isolation(false)]
    pub fn get(&self, key: &str) -> (r: Option<&Json>)
        ensures
            match r {
                Some(v) => get_spec(self@, key@) == Some(v@),
                None => get_spec(self@, key@) is None,
            },
    {
        match self {
            Json::Object(members) => {
                let k = String::from_str(key);
                let ghost vm = view_members(members@);
                proof {
                    lemma_view_members(members@);
                }
                let mut i = members.len();
                assert(vm.subrange(0, i as int) =~= vm);
                assert(self@ == JsonV::Object(vm));
                while i > 0
                    invariant
                        0 <= i <= members@.len(),
                        vm == view_members(members@),
                        vm.len() == members@.len(),
                        k@ == key@,
                        forall|j: int| 0 <= j < members@.len() ==> #[trigger] vm[j] == (
                            members@[j].0@,
                            members@[j].1@,
                        ),
                        lookup(vm, key@) == lookup(vm.subrange(0, i as int), key@),
                    decreases i,
                {
                    let ghost prefix = vm.subrange(0, i as int);
                    if members[i - 1].0 == k {
                        assert(prefix.last() == vm[i - 1]);
                        assert(vm[i - 1] == (members@[i - 1].0@, members@[i - 1].1@));
                        return Some(&members[i - 1].1);
                    }
                    assert(prefix.drop_last() =~= vm.subrange(0, i - 1));
                    i = i - 1;
                }
                assert(vm.subrange(0, 0) =~= Seq::<(Seq<char>, JsonV)>::empty());
                None
            },
            _ => None,
        }
    }

    /// The text held, when this is a string.
    pub fn as_str(&self) -> (r: Option<&str>)
        ensures
            match r {
                Some(s) => as_str_spec(self@) == Some(s@),
                None => as_str_spec(self@) is None,
            },
    {
        match self {
            Json::Str(s) => Some(s.as_str()),
            _ => None,
        }
    }

    /// The unsigned 64-bit integer held, when this is one.
    pub fn as_u64(&self) -> (r: Option<u64>)
        ensures
            r == as_u64_spec(self@),
    {
        match self {
            Json::UInt(u) => Some(*u),
            Json::Int(i) => if *i >= 0 {
                Some(*i as u64)
            } else {
                None
            },
            _ => None,
        }
    }

    /// The items held, when this is an array.
    pub fn as_array(&self) -> (r: Option<&Vec<Json>>)
        ensures
            match r {
                Some(items) => as_array_spec(self@) == Some(view_items(items@)),
                None => as_array_spec(self@) is None,
            },
    {
        match self {
            Json::Array(items) => Some(items),
            _ => None,
        }
    }

    /// A copy of this document, with the same model.
    #[verifier::loop_isolation(false)]
    pub fn copy(&self) -> (r: Json)
        ensures
            r@ == self@,
        decreases self,
    {
        match self {
            Json::Null => Json::Null,
            Json::Bool(b) => Json::Bool(*b),
            Json::Int(i) => Json::Int(*i),
            Json::UInt(u) => Json::UInt(*u),
            Json::Float(bits) => Json::Float(*bits),
            Json::Str(s) => Json::Str(s.clone()),
            Json::Array(items) => {
                let mut out: Vec<Json> = Vec::new();
                proof {
                    lemma_view_items(items@);
                    assert(view_items(out@) == Seq::<JsonV>::empty());
                }
                let mut i: usize = 0;
                while i < items.len()
                    invariant
                        0 <= i <= items@.len(),
                        view_items(out@) == view_items(items@).subrange(0, i as int),
                        view_items(items@).len() == items@.len(),
                        forall|j: int| 0 <= j < items@.len() ==> #[trigger] view_items(items@)[j] == items@[j]@,
                    decreases items@.len() - i,
                {
                    let c = items[i].copy();
                    Json::push_item(&mut out, c);
                    assert(view_items(out@) =~= view_items(items@).subrange(0, i + 1));
                    i = i + 1;
                }
                assert(view_items(items@).subrange(0, items@.len() as int) =~= view_items(items@));
                Json::Array(out)
            },
            Json::Object(members) => {
                let mut out: Vec<(String, Json)> = Vec::new();
                proof {
                    lemma_view_members(members@);
                    assert(view_members(out@) == Seq::<(Seq<char>, JsonV)>::empty());
                }
                let mut i: usize = 0;
                while i < members.len()
                    invariant
                        0 <= i <= members@.len(),
                        view_members(out@) == view_members(members@).subrange(0, i as int),
                        view_members(members@).len() == members@.len(),
                        forall|j: int| 0 <= j < members@.len() ==> #[trigger] view_members(members@)[j] == (
                            members@[j].0@,
                            members@[j].1@,
                        ),
                    decreases members@.len() - i,
                {
                    let c = members[i].1.copy();
                    let ghost before = out@;
                    let m = (members[i].0.clone(), c);
                    out.push(m);
                    proof {
                        lemma_view_members_push(before, m);
                    }
                    assert(view_members(out@) =~= view_members(members@).subrange(0, i + 1));
                    i = i + 1;
                }
                assert(view_members(members@).subrange(0, members@.len() as int) =~= view_members(members@));
                Json::Object(out)
            },
        }
    }

    /// Whether this is a number.
    pub fn is_number(&self) -> (r: bool)
        ensures
            r == (self@ is Int || self@ is Float),
    {
        match self {
            Json::Int(_) | Json::UInt(_) | Json::Float(_) => true,
            _ => false,
        }
    }

    /// Copies of `items`, in order.
    pub fn copy_items(items: &Vec<Json>) -> (r: Vec<Json>)
        ensures
            view_items(r@) == view_items(items@),
    {
        let mut out: Vec<Json> = Vec::new();
        proof {
            lemma_view_items(items@);
            assert(view_items(out@) == Seq::<JsonV>::empty());
        }
        let mut i: usize = 0;
        while i < items.len()
            invariant
                0 <= i <= items@.len(),
                view_items(out@) == view_items(items@).subrange(0, i as int),
                view_items(items@).len() == items@.len(),
                forall|j: int| 0 <= j < items@.len() ==> #[trigger] view_items(items@)[j] == items@[j]@,
            decreases items@.len() - i,
        {
            let c = items[i].copy();
            Json::push_item(&mut out, c);
            assert(view_items(out@) =~= view_items(items@).subrange(0, i + 1));
            i = i + 1;
        }
        assert(view_items(items@).subrange(0, items@.len() as int) =~= view_items(items@));
        out
    }
}


} // verus!
