//! A JSON document model, the lookups that the client makes in the server's
//! replies, and the two reply shapes that most endpoints share:
//! `{"data": ...}` and `{"data": {"items": [...]}}`.
use vstd::prelude::*;

use crate::text::str_equal;

verus! {

/// The mathematical content of a JSON value. Object members keep the order
/// in which they were written.
pub ghost enum Json {
    Null,
    Bool(bool),
    Number(Seq<char>),
    Str(Seq<char>),
    Array(Seq<Json>),
    Object(Seq<(Seq<char>, Json)>),
}

/// A JSON value. A number is held as its JSON text, since the client never
/// computes with the numbers that the server sends.
#[derive(Debug, PartialEq)]
pub enum JsonValue {
    Null,
    Bool(bool),
    Number(String),
    Str(String),
    Array(Vec<JsonValue>),
    Object(Vec<(String, JsonValue)>),
}

impl View for JsonValue {
    type V = Json;

    open spec fn view(&self) -> Json {
        json_of(*self)
    }
}

/// The content of a value.
pub open spec fn json_of(v: JsonValue) -> Json
    decreases v,
{
    match v {
        JsonValue::Null => Json::Null,
        JsonValue::Bool(b) => Json::Bool(b),
        JsonValue::Number(n) => Json::Number(n@),
        JsonValue::Str(s) => Json::Str(s@),
        JsonValue::Array(items) => Json::Array(items_view(items@)),
        JsonValue::Object(members) => Json::Object(members_view(members@)),
    }
}

/// The contents of a sequence of values.
pub open spec fn items_view(items: Seq<JsonValue>) -> Seq<Json>
    decreases items,
{
    if items.len() == 0 {
        Seq::empty()
    } else {
        items_view(items.drop_last()).push(json_of(items.last()))
    }
}

/// The contents of a sequence of object members.
pub open spec fn members_view(members: Seq<(String, JsonValue)>) -> Seq<(Seq<char>, Json)>
    decreases members,
{
    if members.len() == 0 {
        Seq::empty()
    } else {
        members_view(members.drop_last()).push((members.last().0@, json_of(members.last().1)))
    }
}

pub proof fn lemma_items_view(items: Seq<JsonValue>)
    ensures
        items_view(items).len() == items.len(),
        forall|i: int| 0 <= i < items.len() ==> #[trigger] items_view(items)[i] == items[i]@,
    decreases items.len(),
{
    if items.len() > 0 {
        lemma_items_view(items.drop_last());
    }
}

pub proof fn lemma_members_view(members: Seq<(String, JsonValue)>)
    ensures
        members_view(members).len() == members.len(),
        forall|i: int|
            0 <= i < members.len() ==> #[trigger] members_view(members)[i] == (
                members[i].0@,
                members[i].1@,
            ),
    decreases members.len(),
{
    if members.len() > 0 {
        lemma_members_view(members.drop_last());
    }
}

/// The value of the first member named `key`.
pub open spec fn lookup(members: Seq<(Seq<char>, Json)>, key: Seq<char>) -> Option<Json>
    decreases members.len(),
{
    if members.len() == 0 {
        None
    } else if members[0].0 == key {
        Some(members[0].1)
    } else {
        lookup(members.drop_first(), key)
    }
}

/// `value.get(key)`: the member `key` of an object; nothing for any other value.
pub open spec fn json_get(j: Json, key: Seq<char>) -> Option<Json> {
    match j {
        Json::Object(members) => lookup(members, key),
        _ => None,
    }
}

/// `value.as_str()`.
pub open spec fn json_as_str(j: Json) -> Option<Seq<char>> {
    match j {
        Json::Str(s) => Some(s),
        _ => None,
    }
}

/// `value.as_array()`.
pub open spec fn json_as_array(j: Json) -> Option<Seq<Json>> {
    match j {
        Json::Array(items) => Some(items),
        _ => None,
    }
}

/// The `data` member of a reply, or `null` where there is none.
pub open spec fn data_of(reply: Json) -> Json {
    match json_get(reply, "data"@) {
        Some(d) => d,
        None => Json::Null,
    }
}

/// The array `data.items` of a reply, or no items where the reply has no such
/// array.
pub open spec fn items_of(reply: Json) -> Seq<Json> {
    match json_get(reply, "data"@) {
        Some(d) => match json_get(d, "items"@) {
            Some(items) => match json_as_array(items) {
                Some(a) => a,
                None => Seq::empty(),
            },
            None => Seq::empty(),
        },
        None => Seq::empty(),
    }
}

impl JsonValue {
    /// A copy of this value with the same content.
    pub fn duplicate(&self) -> (r: JsonValue)
        ensures
            r@ == self@,
        decreases self,
    {
        match self {
            JsonValue::Null => JsonValue::Null,
            JsonValue::Bool(b) => JsonValue::Bool(*b),
            JsonValue::Number(n) => JsonValue::Number(n.clone()),
            JsonValue::Str(s) => JsonValue::Str(s.clone()),
            JsonValue::Array(v) => {
                let r = duplicate_items(v);
                JsonValue::Array(r)
            },
            JsonValue::Object(v) => {
                let r = duplicate_members(v);
                JsonValue::Object(r)
            },
        }
    }

    /// The member `key` of an object; nothing for any other value
    /// (`serde_json::Value::get` with a key).
    pub fn get(&self, key: &str) -> (r: Option<&JsonValue>)
        ensures
            match r {
                Some(x) => json_get(self@, key@) == Some(x@),
                None => json_get(self@, key@) is None,
            },
    {
        match self {
            JsonValue::Object(members) => {
                proof {
                    lemma_members_view(members@);
                }
                let ghost ms = members_view(members@);
                assert(ms.subrange(0, ms.len() as int) =~= ms);
                assert(self@ == Json::Object(ms));
                let mut k: usize = 0;
                while k < members.len()
                    invariant
                        k <= members.len(),
                        self@ == Json::Object(ms),
                        ms.len() == members.len(),
                        forall|i: int|
                            0 <= i < members.len() ==> #[trigger] ms[i] == (
                                members[i].0@,
                                members[i].1@,
                            ),
                        lookup(ms, key@) == lookup(ms.subrange(k as int, ms.len() as int), key@),
                    decreases members.len() - k,
                {
                    let ghost rest = ms.subrange(k as int, ms.len() as int);
                    assert(rest[0] == ms[k as int]);
                    if str_equal(members[k].0.as_str(), key) {
                        assert(rest.len() > 0);
                        assert(lookup(rest, key@) == Some(rest[0].1));
                        return Some(&members[k].1);
                    }
                    assert(rest.drop_first() =~= ms.subrange(k + 1, ms.len() as int));
                    k = k + 1;
                }
                None
            },
            _ => None,
        }
    }

    /// The text of a string value (`serde_json::Value::as_str`).
    pub fn as_str(&self) -> (r: Option<&String>)
        ensures
            match r {
                Some(s) => json_as_str(self@) == Some(s@),
                None => json_as_str(self@) is None,
            },
    {
        match self {
            JsonValue::Str(s) => Some(s),
            _ => None,
        }
    }

    /// The elements of an array value (`serde_json::Value::as_array`).
    pub fn as_array(&self) -> (r: Option<&Vec<JsonValue>>)
        ensures
            match r {
                Some(items) => json_as_array(self@) == Some(items_view(items@)),
                None => json_as_array(self@) is None,
            },
    {
        match self {
            JsonValue::Array(v) => {
                Some(v)
            },
            _ => None,
        }
    }
}

/// Copies every value of a sequence.
pub fn duplicate_items(v: &Vec<JsonValue>) -> (r: Vec<JsonValue>)
    ensures
        items_view(r@) == items_view(v@),
    decreases v,
{
    let mut r: Vec<JsonValue> = Vec::new();
    let mut k: usize = 0;
    while k < v.len()
        invariant
            k <= v.len(),
            r.len() == k,
            forall|i: int| 0 <= i < k ==> #[trigger] r[i]@ == v[i]@,
        decreases v.len() - k,
    {
        proof {
            vstd::std_specs::vec::axiom_vec_index_decreases(*v, k as int);
        }
        r.push(v[k].duplicate());
        k = k + 1;
    }
    proof {
        lemma_items_view(r@);
        lemma_items_view(v@);
    }
    assert(items_view(r@) =~= items_view(v@));
    r
}

/// Copies every member of an object.
fn duplicate_members(v: &Vec<(String, JsonValue)>) -> (r: Vec<(String, JsonValue)>)
    ensures
        members_view(r@) == members_view(v@),
    decreases v,
{
    let mut r: Vec<(String, JsonValue)> = Vec::new();
    let mut k: usize = 0;
    while k < v.len()
        invariant
            k <= v.len(),
            r.len() == k,
            forall|i: int| 0 <= i < k ==> #[trigger] r[i].0@ == v[i].0@ && r[i].1@ == v[i].1@,
        decreases v.len() - k,
    {
        proof {
            vstd::std_specs::vec::axiom_vec_index_decreases(*v, k as int);
            assert(decreases_to!(v[k as int] => v[k as int].1));
            assert(decreases_to!(*v => v[k as int].1));
        }
        let member = (v[k].0.clone(), v[k].1.duplicate());
        r.push(member);
        k = k + 1;
    }
    proof {
        lemma_members_view(v@);
        lemma_members_view(r@);
    }
    assert(members_view(r@) =~= members_view(v@));
    r
}

/// The `data` member of a reply, copied, or `null` where there is none
/// (`reply.get("data").cloned().unwrap_or(Value::Null)`).
pub fn data_or_null(reply: &JsonValue) -> (r: JsonValue)
    ensures
        r@ == data_of(reply@),
{
    match reply.get("data") {
        Some(d) => d.duplicate(),
        None => JsonValue::Null,
    }
}

/// The elements of `data.items` in a reply, copied, or none where the reply
/// holds no such array.
pub fn data_items(reply: &JsonValue) -> (r: Vec<JsonValue>)
    ensures
        items_view(r@) == items_of(reply@),
{
    let none: Vec<JsonValue> = Vec::new();
    assert(items_view(none@) =~= Seq::<Json>::empty());
    match reply.get("data") {
        Some(d) => match d.get("items") {
            Some(items) => match items.as_array() {
                Some(a) => duplicate_items(a),
                None => none,
            },
            None => none,
        },
        None => none,
    }
}

} // verus!
