//! A plain model of JSON documents: the payloads that requests and responses
//! carry, and the detail objects attached to errors.

use vstd::prelude::*;

verus! {

/// A JSON number. A number that is not an integer is kept as the bit pattern
/// of its double-precision value, so that it passes through unchanged.
#[derive(Clone, Copy, Debug, PartialEq, Eq)]
pub enum JsonNumber {
    PosInt(u64),
    NegInt(i64),
    Float(u64),
}

/// A JSON document. The entries of an object keep the order they were given in.
#[derive(Debug, PartialEq)]
pub enum Json {
    Null,
    Bool(bool),
    Number(JsonNumber),
    Text(String),
    Array(Vec<Json>),
    Object(Vec<(String, Json)>),
}

/// What a [`Json`] document says, as a mathematical value.
pub enum JsonView {
    Null,
    Bool(bool),
    Number(JsonNumber),
    Text(Seq<char>),
    Array(Seq<JsonView>),
    Object(Seq<(Seq<char>, JsonView)>),
}

/// What `j` says: each text by its characters, each array and object entry by
/// entry, in order.
pub open spec fn json_view(j: Json) -> JsonView
    decreases j,
{
    match j {
        Json::Null => JsonView::Null,
        Json::Bool(b) => JsonView::Bool(b),
        Json::Number(n) => JsonView::Number(n),
        Json::Text(s) => JsonView::Text(s@),
        Json::Array(items) => JsonView::Array(
            Seq::new(
                items@.len(),
                |i: int|
                    if 0 <= i < items@.len() {
                        json_view(items@[i])
                    } else {
                        JsonView::Null
                    },
            ),
        ),
        Json::Object(entries) => JsonView::Object(
            Seq::new(
                entries@.len(),
                |i: int|
                    if 0 <= i < entries@.len() {
                        (entries@[i].0@, json_view(entries@[i].1))
                    } else {
                        (Seq::empty(), JsonView::Null)
                    },
            ),
        ),
    }
}

impl View for Json {
    type V = JsonView;

    open spec fn view(&self) -> JsonView {
        json_view(*self)
    }
}

/// The view of an optional document.
pub open spec fn optional_view(j: Option<Json>) -> Option<JsonView> {
    match j {
        Some(j) => Some(j@),
        None => None,
    }
}

/// An object with no entries: "input with zero fields".
pub open spec fn is_empty_object(j: JsonView) -> bool {
    j matches JsonView::Object(entries) && entries.len() == 0
}

/// The object `{ key: value }`.
pub open spec fn object1(key: Seq<char>, value: JsonView) -> JsonView {
    JsonView::Object(seq![(key, value)])
}

/// The object `{ key1: value1, key2: value2 }`.
pub open spec fn object2(
    key1: Seq<char>,
    value1: JsonView,
    key2: Seq<char>,
    value2: JsonView,
) -> JsonView {
    JsonView::Object(seq![(key1, value1), (key2, value2)])
}

/// The entries of an object's view: one for each entry, in order.
pub proof fn lemma_object_view(entries: Vec<(String, Json)>)
    ensures
        Json::Object(entries)@ is Object,
        Json::Object(entries)@->Object_0.len() == entries@.len(),
        forall|i: int|
            0 <= i < entries@.len() ==> (#[trigger] Json::Object(entries)@->Object_0[i]) == (
                entries@[i].0@,
                entries@[i].1@,
            ),
{
    reveal_with_fuel(json_view, 2);

}

impl Json {
    /// The JSON string that holds `s`.
    pub fn text(s: &str) -> (j: Json)
        ensures
            j@ == JsonView::Text(s@),
    {
        Json::Text(s.to_string())
    }

    /// The JSON number `n`.
    pub fn unsigned(n: u64) -> (j: Json)
        ensures
            j@ == JsonView::Number(JsonNumber::PosInt(n)),
    {
        Json::Number(JsonNumber::PosInt(n))
    }

    /// The object `{ key: value }`.
    pub fn object1(key: &str, value: Json) -> (j: Json)
        ensures
            j@ == object1(key@, value@),
    {
        let mut entries: Vec<(String, Json)> = Vec::new();
        entries.push((key.to_string(), value));
        let j = Json::Object(entries);
        proof {
            let got = j@->Object_0;
            assert(entries@[0].1@ == value@);
            assert(got[0] == (key@, value@));
            assert(got =~= seq![(key@, value@)]);
        }
        j
    }

    /// The object `{ key1: value1, key2: value2 }`.
    pub fn object2(key1: &str, value1: Json, key2: &str, value2: Json) -> (j: Json)
        ensures
            j@ == object2(key1@, value1@, key2@, value2@),
    {
        let mut entries: Vec<(String, Json)> = Vec::new();
        entries.push((key1.to_string(), value1));
        entries.push((key2.to_string(), value2));
        let j = Json::Object(entries);
        proof {
            let got = j@->Object_0;
            assert(entries@[0].1@ == value1@);
            assert(entries@[1].1@ == value2@);
            assert(got[0] == (key1@, value1@));
            assert(got[1] == (key2@, value2@));
            assert(got =~= seq![(key1@, value1@), (key2@, value2@)]);
        }
        j
    }

    /// Whether the document is an object with no entries.
    pub fn is_empty_object(&self) -> (empty: bool)
        ensures
            empty == is_empty_object(self@),
    {
        match self {
            Json::Object(entries) => {
                proof {
                    lemma_object_view(*entries);
                }
                entries.len() == 0
            },
            _ => false,
        }
    }
}

} // verus!
