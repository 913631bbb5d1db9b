//! JSON documents: what a `serde_json::Value` holds, and the calls that read
//! and build one.
use serde_json::Value;
use vstd::prelude::*;

use crate::text::u64_of_text;

verus! {

#[verifier::external_type_specification]
#[verifier::external_body]
pub struct ExValue(serde_json::Value);

/// A JSON document.
pub enum Json {
    Null,
    Bool(bool),
    /// An integer that is not negative.
    Natural(u64),
    /// A negative integer.
    Negative(i64),
    /// Any other number, told apart by its bits.
    Real(u64),
    Text(Seq<char>),
    Array(Seq<Json>),
    Object(Map<Seq<char>, Json>),
}

/// The document that a value holds.
pub uninterp spec fn document(v: Value) -> Json;

/// The document that a text denotes, or the message that says why it denotes
/// none.
pub uninterp spec fn parsed(text: Seq<char>) -> Result<Json, Seq<char>>;

/// The document that a run of bytes denotes, if it denotes one.
pub uninterp spec fn parsed_bytes(bytes: Seq<u8>) -> Option<Json>;

/// The compact text of a document.
pub uninterp spec fn compact(j: Json) -> Seq<char>;

/// The documents that a list of values holds.
pub open spec fn documents(vs: Seq<Value>) -> Seq<Json> {
    vs.map_values(|v: Value| document(v))
}

/// The member of an object under `key`.
pub open spec fn member(j: Json, key: Seq<char>) -> Option<Json> {
    match j {
        Json::Object(m) => if m.contains_key(key) {
            Some(m[key])
        } else {
            None
        },
        _ => None,
    }
}

/// The member under `inner` of the member under `outer`.
pub open spec fn nested_member(j: Json, outer: Seq<char>, inner: Seq<char>) -> Option<Json> {
    match member(j, outer) {
        Some(m) => member(m, inner),
        None => None,
    }
}

/// The text that a document is, if it is one.
pub open spec fn text_of(j: Option<Json>) -> Option<Seq<char>> {
    match j {
        Some(Json::Text(s)) => Some(s),
        _ => None,
    }
}

/// The number that a document spells out as text: Discord writes its 64-bit
/// identifiers so.
pub open spec fn identifier_of(j: Option<Json>) -> Option<u64> {
    match text_of(j) {
        Some(s) => u64_of_text(s),
        None => None,
    }
}

/// Whether no key occurs twice.
pub open spec fn distinct_keys(entries: Seq<(String, Value)>) -> bool {
    forall|i: int, j: int|
        0 <= i < j < entries.len() ==> #[trigger] entries[i].0@ != #[trigger] entries[j].0@
}

/// The members of an object that is made of entries with distinct keys.
pub open spec fn members(entries: Seq<(String, Value)>) -> Map<Seq<char>, Json>
    decreases entries.len(),
{
    if entries.len() == 0 {
        Map::empty()
    } else {
        members(entries.drop_last()).insert(entries.last().0@, document(entries.last().1))
    }
}

/// Calls `serde_json::from_str`. Whether the text is accepted, the document it
/// denotes and the message of the error depend on the text alone.
#[verifier::external_body]
pub(crate) fn parse(text: &str) -> (r: Result<Value, String>)
    ensures
        match r {
            Ok(v) => parsed(text@) == Ok::<Json, Seq<char>>(document(v)),
            Err(e) => parsed(text@) == Err::<Json, Seq<char>>(e@),
        },
{
    serde_json::from_str(text).map_err(|e| e.to_string())
}

/// Calls `serde_json::from_slice`. Whether the bytes are accepted and the
/// document they denote depend on the bytes alone.
#[verifier::external_body]
pub(crate) fn parse_bytes(bytes: &[u8]) -> (r: Option<Value>)
    ensures
        match r {
            Some(v) => parsed_bytes(bytes@) == Some(document(v)),
            None => parsed_bytes(bytes@) is None,
        },
{
    serde_json::from_slice(bytes).ok()
}

/// Calls `Value::get` with a text key: the member of an object, and nothing
/// where there is none or the value is no object.
#[verifier::external_body]
pub(crate) fn get<'a>(v: &'a Value, key: &str) -> (r: Option<&'a Value>)
    ensures
        match r {
            Some(m) => member(document(*v), key@) == Some(document(*m)),
            None => member(document(*v), key@) is None,
        },
{
    v.get(key)
}

/// Calls `Value::as_str`: the text that a string value holds.
#[verifier::external_body]
pub(crate) fn as_str(v: &Value) -> (r: Option<&str>)
    ensures
        match r {
            Some(s) => document(*v) == Json::Text(s@),
            None => !(document(*v) is Text),
        },
{
    v.as_str()
}

/// Calls `Value::as_u64`: the number that a value holds, where it is an integer
/// that is not negative.
#[verifier::external_body]
pub(crate) fn as_u64(v: &Value) -> (r: Option<u64>)
    ensures
        match r {
            Some(n) => document(*v) == Json::Natural(n),
            None => !(document(*v) is Natural),
        },
{
    v.as_u64()
}

/// Calls `Value::clone`: a value that holds the same document.
#[verifier::external_body]
pub(crate) fn copy(v: &Value) -> (r: Value)
    ensures
        document(r) == document(*v),
{
    v.clone()
}

/// Calls `Value::default`: the null value.
#[verifier::external_body]
pub(crate) fn null() -> (r: Value)
    ensures
        document(r) == Json::Null,
{
    Value::default()
}

/// Makes a `Value::String`, which holds the text.
#[verifier::external_body]
pub(crate) fn text(s: String) -> (r: Value)
    ensures
        document(r) == Json::Text(s@),
{
    Value::String(s)
}

/// Calls `Value::from` on a number, which the value then holds.
#[verifier::external_body]
pub(crate) fn natural(n: u64) -> (r: Value)
    ensures
        document(r) == Json::Natural(n),
{
    Value::from(n)
}

/// Makes a `Value::Array`, which holds the values in order.
#[verifier::external_body]
pub(crate) fn array(items: Vec<Value>) -> (r: Value)
    ensures
        document(r) == Json::Array(documents(items@)),
{
    Value::Array(items)
}

/// Makes a `Value::Object` of a `serde_json::Map` that is collected from entries
/// with distinct keys: each key maps to the value given for it.
#[verifier::external_body]
pub(crate) fn object(entries: Vec<(String, Value)>) -> (r: Value)
    requires
        distinct_keys(entries@),
    ensures
        document(r) == Json::Object(members(entries@)),
{
    Value::Object(entries.into_iter().collect())
}

/// Calls `Value::to_string`: the compact text of the document.
#[verifier::external_body]
pub(crate) fn to_text(v: &Value) -> (r: String)
    ensures
        r@ == compact(document(*v)),
{
    v.to_string()
}

/// Calls `serde_json::to_vec`. It accepts every value, since the keys of a
/// `Value` are text and writing to memory does not fail; the bytes are the
/// compact text of the document in UTF-8.
#[verifier::external_body]
pub(crate) fn to_bytes(v: &Value) -> (r: Option<Vec<u8>>)
    ensures
        match r {
            Some(b) => b@ == vstd::utf8::encode_utf8(compact(document(*v))),
            None => false,
        },
{
    serde_json::to_vec(v).ok()
}

/// The member under `inner` of the member under `outer`.
pub(crate) fn get_nested<'a>(v: &'a Value, outer: &str, inner: &str) -> (r: Option<&'a Value>)
    ensures
        match r {
            Some(m) => nested_member(document(*v), outer@, inner@) == Some(document(*m)),
            None => nested_member(document(*v), outer@, inner@) is None,
        },
{
    match get(v, outer) {
        Some(m) => get(m, inner),
        None => None,
    }
}

/// The document of an optional value.
pub open spec fn document_of(v: Option<&Value>) -> Option<Json> {
    match v {
        Some(v) => Some(document(*v)),
        None => None,
    }
}

/// The text that a value is, if there is a value and it is text.
pub(crate) fn text_in(v: Option<&Value>) -> (r: Option<&str>)
    ensures
        match r {
            Some(s) => text_of(document_of(v)) == Some(s@),
            None => text_of(document_of(v)) is None,
        },
{
    match v {
        Some(v) => as_str(v),
        None => None,
    }
}

/// The identifier that a value spells out as text, if there is one.
pub(crate) fn identifier_in(v: Option<&Value>) -> (r: Option<u64>)
    ensures
        r == identifier_of(document_of(v)),
{
    match text_in(v) {
        Some(s) => crate::text::parse_u64(s),
        None => None,
    }
}

/// The bytes that a value is sent as.
pub(crate) fn encode(v: &Value) -> (r: Vec<u8>)
    ensures
        r@ == vstd::utf8::encode_utf8(compact(document(*v))),
{
    match to_bytes(v) {
        Some(b) => b,
        None => Vec::new(),
    }
}

/// An object with one member.
pub open spec fn object1(key: Seq<char>, value: Json) -> Json {
    Json::Object(Map::empty().insert(key, value))
}

/// An object with two members.
pub open spec fn object2(key1: Seq<char>, value1: Json, key2: Seq<char>, value2: Json) -> Json {
    Json::Object(Map::empty().insert(key1, value1).insert(key2, value2))
}

/// An object with three members.
pub open spec fn object3(
    key1: Seq<char>,
    value1: Json,
    key2: Seq<char>,
    value2: Json,
    key3: Seq<char>,
    value3: Json,
) -> Json {
    Json::Object(Map::empty().insert(key1, value1).insert(key2, value2).insert(key3, value3))
}

pub(crate) fn make_object2(key1: &str, value1: Value, key2: &str, value2: Value) -> (r: Value)
    requires
        key1@ != key2@,
    ensures
        document(r) == object2(key1@, document(value1), key2@, document(value2)),
{
    let mut entries: Vec<(String, Value)> = Vec::new();
    entries.push((key1.to_owned(), value1));
    let ghost first = entries@;
    entries.push((key2.to_owned(), value2));
    proof {
        reveal_with_fuel(members, 3);
        assert(entries@.drop_last() == first);
        assert(first.drop_last() == Seq::<(String, Value)>::empty());
    }
    object(entries)
}

pub(crate) fn make_object3(key1: &str, value1: Value, key2: &str, value2: Value, key3: &str, value3: Value) -> (r:
    Value)
    requires
        key1@ != key2@,
        key1@ != key3@,
        key2@ != key3@,
    ensures
        document(r) == object3(
            key1@,
            document(value1),
            key2@,
            document(value2),
            key3@,
            document(value3),
        ),
{
    let mut entries: Vec<(String, Value)> = Vec::new();
    entries.push((key1.to_owned(), value1));
    let ghost first = entries@;
    entries.push((key2.to_owned(), value2));
    let ghost second = entries@;
    entries.push((key3.to_owned(), value3));
    proof {
        reveal_with_fuel(members, 4);
        assert(entries@.drop_last() == second);
        assert(second.drop_last() == first);
        assert(first.drop_last() == Seq::<(String, Value)>::empty());
    }
    object(entries)
}

pub(crate) fn make_object1(key: &str, value: Value) -> (r: Value)
    ensures
        document(r) == object1(key@, document(value)),
{
    let mut entries: Vec<(String, Value)> = Vec::new();
    entries.push((key.to_owned(), value));
    proof {
        reveal_with_fuel(members, 2);
        assert(entries@.drop_last() == Seq::<(String, Value)>::empty());
    }
    object(entries)
}

} // verus!
