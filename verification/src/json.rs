//! JSON values: the boundary to `serde_json`.
//!
//! A `serde_json::Value` is opaque here. What it holds is named by [`json_of`],
//! and each function below calls one function of `serde_json` and says what it
//! does over that name.

use vstd::prelude::*;
use serde_json::Value;

use crate::text::text_before;

verus! {

/// The JSON value of `serde_json`.
#[verifier::external_type_specification]
#[verifier::external_body]
pub struct ExValue(serde_json::Value);

/// What `serde_json` reports when it cannot read or write JSON.
#[verifier::external_type_specification]
#[verifier::external_body]
pub struct ExJsonError(serde_json::Error);

/// A JSON value as a mathematical tree.
pub enum Json {
    Null,
    Bool(bool),
    /// A number held as a 64-bit integer.
    Int(int),
    /// Any other number, by the bits of its double.
    Float(u64),
    Text(Seq<char>),
    Array(Seq<Json>),
    Object(Map<Seq<char>, Json>),
}

/// The tree that a `serde_json::Value` holds.
pub uninterp spec fn json_of(v: Value) -> Json;

/// The text that `Display` of `serde_json::Value` writes for a tree.
pub uninterp spec fn shown_json(j: Json) -> Seq<char>;

/// The text that `serde_json::to_string` writes for a tree.
pub uninterp spec fn written_json(j: Json) -> Seq<char>;

/// The tree that `serde_json::from_str` reads from a text, if it reads one.
pub uninterp spec fn read_json(s: Seq<char>) -> Option<Json>;

/// The member `key` of an object; nothing for any other value.
pub open spec fn member(j: Json, key: Seq<char>) -> Option<Json> {
    match j {
        Json::Object(m) => if m.dom().contains(key) {
            Some(m[key])
        } else {
            None
        },
        _ => None,
    }
}

/// The characters of a text; nothing for any other value.
pub open spec fn text_in(j: Json) -> Option<Seq<char>> {
    match j {
        Json::Text(s) => Some(s),
        _ => None,
    }
}

/// The tree behind an optional value.
pub open spec fn json_of_option(v: Option<&Value>) -> Option<Json> {
    match v {
        Some(x) => Some(json_of(*x)),
        None => None,
    }
}

/// The object with the members `entries`; of two members with one key the later
/// one counts.
pub open spec fn object_of(entries: Seq<(Seq<char>, Json)>) -> Json {
    Json::Object(members_of(entries))
}

/// The members of [`object_of`].
pub open spec fn members_of(entries: Seq<(Seq<char>, Json)>) -> Map<Seq<char>, Json>
    decreases entries.len(),
{
    if entries.len() == 0 {
        Map::empty()
    } else {
        members_of(entries.drop_last()).insert(entries.last().0, entries.last().1)
    }
}

/// `Value::get` with a string: the member of an object, `None` when there is no
/// such member or the value is no object.
#[verifier::external_body]
pub(crate) fn get<'a>(v: &'a Value, key: &str) -> (r: Option<&'a Value>)
    ensures
        json_of_option(r) == member(json_of(*v), key@),
{
    v.get(key)
}

/// `Value::as_str`: the string, `None` when the value is no string.
#[verifier::external_body]
pub(crate) fn as_text(v: &Value) -> (r: Option<&str>)
    ensures
        match r {
            Some(s) => text_in(json_of(*v)) == Some(s@),
            None => text_in(json_of(*v)) is None,
        },
{
    v.as_str()
}

/// `Value::clone`: a value that holds the same tree.
#[verifier::external_body]
pub(crate) fn copy(v: &Value) -> (r: Value)
    ensures
        json_of(r) == json_of(*v),
{
    v.clone()
}

/// `Value::Null`.
#[verifier::external_body]
pub(crate) fn null() -> (r: Value)
    ensures
        json_of(r) == Json::Null,
{
    Value::Null
}

/// `Value::String`: a JSON string with the given characters.
#[verifier::external_body]
pub(crate) fn text(s: String) -> (r: Value)
    ensures
        json_of(r) == Json::Text(s@),
{
    Value::String(s)
}

/// `Value::from` of an `i64`: that number.
#[verifier::external_body]
pub(crate) fn integer(n: i64) -> (r: Value)
    ensures
        json_of(r) == Json::Int(n as int),
{
    Value::from(n)
}

/// `Value::Array`: the array of the given values, in their order.
#[verifier::external_body]
pub(crate) fn array(items: Vec<Value>) -> (r: Value)
    ensures
        json_of(r) == Json::Array(items@.map_values(|v: Value| json_of(v))),
{
    Value::Array(items)
}

/// `serde_json::Map::new`, as a value: the object without members.
#[verifier::external_body]
pub(crate) fn empty_object() -> (r: Value)
    ensures
        json_of(r) == Json::Object(Map::empty()),
{
    Value::Object(serde_json::Map::new())
}

/// `serde_json::Map::insert` on the map of an object: afterwards the object has
/// the member `key` with `value`, and its other members as before. A value that
/// is no object stays as it is.
#[verifier::external_body]
pub(crate) fn insert(v: &mut Value, key: String, value: Value)
    ensures
        json_of(*final(v)) == match json_of(*old(v)) {
            Json::Object(m) => Json::Object(m.insert(key@, json_of(value))),
            other => other,
        },
{
    if let Some(map) = v.as_object_mut() {
        map.insert(key, value);
    }
}

/// `entries` are the members of `m`, each once, in the order of their keys.
pub open spec fn lists_members(
    entries: Seq<(Seq<char>, Json)>,
    m: Map<Seq<char>, Json>,
) -> bool {
    &&& forall|i: int|
        0 <= i < entries.len() ==> m.dom().contains((#[trigger] entries[i]).0)
            && m[entries[i].0] == entries[i].1
    &&& forall|k: Seq<char>| #[trigger]
        m.dom().contains(k) ==> exists|i: int|
            0 <= i < entries.len() && (#[trigger] entries[i]).0 == k
    &&& forall|i: int, j: int|
        0 <= i < j < entries.len() ==> text_before(
            (#[trigger] entries[i]).0,
            (#[trigger] entries[j]).0,
        )
}

/// The members of a list of pairs, as trees.
pub open spec fn entry_trees(entries: Seq<(String, Value)>) -> Seq<(Seq<char>, Json)> {
    entries.map_values(|e: (String, Value)| (e.0@, json_of(e.1)))
}

/// `Value::as_object` and `serde_json::Map::iter`: the members of an object in
/// the order of their keys (the map is a `BTreeMap`), `None` when the value is
/// no object.
#[verifier::external_body]
pub(crate) fn entries(v: &Value) -> (r: Option<Vec<(String, Value)>>)
    ensures
        match json_of(*v) {
            Json::Object(m) => r is Some && lists_members(entry_trees(r->0@), m),
            _ => r is None,
        },
{
    v.as_object().map(|m| m.iter().map(|(k, v)| (k.clone(), v.clone())).collect())
}

/// `Display` of `serde_json::Value`, through `to_string`: the text is a function
/// of the tree.
#[verifier::external_body]
pub(crate) fn show(v: &Value) -> (r: String)
    ensures
        r@ == shown_json(json_of(*v)),
{
    v.to_string()
}

/// `serde_json::to_string` of a value: it succeeds, as a `Value` has no map with
/// other keys than strings and its `Serialize` never fails. The text is a function
/// of the tree, and there is no line feed in it: it is written in the compact form,
/// and strings are written with their control characters escaped.
#[verifier::external_body]
pub(crate) fn write(v: &Value) -> (r: Result<String, serde_json::Error>)
    ensures
        r is Ok,
        r->Ok_0@ == written_json(json_of(*v)),
        !r->Ok_0@.contains('\n'),
{
    serde_json::to_string(v)
}

/// `serde_json::from_str` into a value: whether it succeeds, and the tree it
/// reads, are a function of the text.
#[verifier::external_body]
pub(crate) fn read(s: &str) -> (r: Result<Value, serde_json::Error>)
    ensures
        match r {
            Ok(v) => read_json(s@) == Some(json_of(v)),
            Err(_) => read_json(s@) is None,
        },
{
    serde_json::from_str(s)
}

/// `Display` of `serde_json::Error`, through `to_string`. Nothing is said of the
/// text.
#[verifier::external_body]
pub(crate) fn error_text(e: &serde_json::Error) -> (r: String)
{
    e.to_string()
}

/// `r` is what one call of [`error_text`] gave for `e`.
pub closed spec fn told_json_error(e: &serde_json::Error, r: String) -> bool {
    call_ensures(error_text, (e,), r)
}

/// The text that `serde_json` has for an error.
pub fn describe_error(e: &serde_json::Error) -> (r: String)
    ensures
        told_json_error(e, r),
{
    error_text(e)
}

/// An object member by member: the object with the members `entries`.
pub fn object(entries: Vec<(String, Value)>) -> (r: Value)
    ensures
        json_of(r) == object_of(entry_trees(entries@)),
{
    let ghost trees = entry_trees(entries@);
    let mut v: Value = empty_object();
    let n: usize = entries.len();
    let mut i: usize = 0;
    assert(trees.take(0) =~= Seq::<(Seq<char>, Json)>::empty());
    while i < n
        invariant
            n == entries@.len(),
            trees == entry_trees(entries@),
            i <= n,
            json_of(v) == Json::Object(members_of(trees.take(i as int))),
        decreases n - i,
    {
        let (k, x): (String, Value) = (entries[i].0.clone(), copy(&entries[i].1));
        insert(&mut v, k, x);
        assert(trees.take(i + 1).drop_last() =~= trees.take(i as int));
        i = i + 1;
    }
    assert(trees.take(n as int) =~= trees);
    v
}

/// The array of the given numbers, in their order.
pub fn integers(items: &Vec<i64>) -> (r: Value)
    ensures
        json_of(r) == Json::Array(items@.map_values(|n: i64| Json::Int(n as int))),
{
    let mut out: Vec<Value> = Vec::new();
    let mut i: usize = 0;
    while i < items.len()
        invariant
            i <= items@.len(),
            out@.len() == i,
            forall|k: int|
                0 <= k < i ==> json_of(#[trigger] out@[k]) == Json::Int(items@[k] as int),
        decreases items.len() - i,
    {
        out.push(integer(items[i]));
        i = i + 1;
    }
    assert(out@.map_values(|v: Value| json_of(v)) =~= items@.map_values(
        |n: i64| Json::Int(n as int),
    ));
    array(out)
}

} // verus!
