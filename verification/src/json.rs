//! JSON values: what they are, and the calls into `serde_json` that build, read, print and parse
//! them.

use vstd::prelude::*;

verus! {

/// What a JSON value is. A number that is not an integer is known by its bit pattern.
pub enum Json {
    Null,
    Bool(bool),
    Int(int),
    Float(int),
    Str(Seq<char>),
    Array(Seq<Json>),
    Object(Map<Seq<char>, Json>),
}

#[verifier::external_type_specification]
#[verifier::external_body]
pub struct ExValue(serde_json::Value);

#[verifier::external_type_specification]
#[verifier::external_body]
#[verifier::reject_recursive_types(K)]
#[verifier::reject_recursive_types(V)]
pub struct ExMap<K, V>(serde_json::Map<K, V>);

/// What a value holds.
pub uninterp spec fn json_of(value: serde_json::Value) -> Json;

/// What an object's entries are.
pub uninterp spec fn entries_of(map: serde_json::Map<String, serde_json::Value>) -> Map<Seq<char>, Json>;

/// What `serde_json::from_str::<Value>` makes of a text, when it accepts it.
pub uninterp spec fn parsed(text: Seq<char>) -> Option<Json>;

/// What `serde_json::to_string` prints of a value.
pub uninterp spec fn printed(value: Json) -> Seq<char>;

/// The object without entries.
pub open spec fn no_entries() -> Map<Seq<char>, Json> {
    Map::empty()
}

/// What each of `items` holds, in order.
pub open spec fn jsons(items: Seq<serde_json::Value>) -> Seq<Json> {
    Seq::new(items.len(), |i: int| json_of(items[i]))
}

/// The array of the texts `items`.
pub open spec fn text_array(items: Seq<Seq<char>>) -> Json {
    Json::Array(Seq::new(items.len(), |i: int| Json::Str(items[i])))
}

/// What an optional value holds.
pub open spec fn json_opt(value: Option<serde_json::Value>) -> Option<Json> {
    match value {
        Some(v) => Some(json_of(v)),
        None => None,
    }
}

/// Whether `value` nests arrays and objects at most `depth` deep and holds no number that is not
/// an integer.
pub open spec fn plain(value: Json, depth: nat) -> bool
    decreases depth,
{
    match value {
        Json::Float(_) => false,
        Json::Array(items) => depth > 0 && forall|i: int|
            0 <= i < items.len() ==> plain(#[trigger] items[i], (depth - 1) as nat),
        Json::Object(entries) => depth > 0 && forall|key: Seq<char>| #[trigger]
            entries.dom().contains(key) ==> plain(entries[key], (depth - 1) as nat),
        _ => true,
    }
}

/// The value under `key`, when `value` is an object that has one.
pub open spec fn member(value: Json, key: Seq<char>) -> Option<Json> {
    match value {
        Json::Object(entries) => if entries.dom().contains(key) {
            Some(entries[key])
        } else {
            None
        },
        _ => None,
    }
}

/// `member` of a value that may be missing.
pub open spec fn member_opt(value: Option<Json>, key: Seq<char>) -> Option<Json> {
    match value {
        Some(v) => member(v, key),
        None => None,
    }
}

/// `Map::new`: the object without entries.
#[verifier::external_body]
pub(crate) fn new_map() -> (map: serde_json::Map<String, serde_json::Value>)
    ensures
        entries_of(map) == no_entries(),
{
    serde_json::Map::new()
}

/// `Map::insert`: afterwards `key` has `value`, in place of what it had, and every other entry is
/// as before.
#[verifier::external_body]
pub(crate) fn insert(
    map: &mut serde_json::Map<String, serde_json::Value>,
    key: String,
    value: serde_json::Value,
)
    ensures
        entries_of(*final(map)) == entries_of(*old(map)).insert(key@, json_of(value)),
{
    map.insert(key, value);
}

/// `Map::clone`: an object with the same entries.
#[verifier::external_body]
pub(crate) fn clone_map(map: &serde_json::Map<String, serde_json::Value>) -> (copy: serde_json::Map<
    String,
    serde_json::Value,
>)
    ensures
        entries_of(copy) == entries_of(*map),
{
    map.clone()
}

/// `Value::clone`: a value that holds the same.
#[verifier::external_body]
pub(crate) fn clone_value(value: &serde_json::Value) -> (copy: serde_json::Value)
    ensures
        json_of(copy) == json_of(*value),
{
    value.clone()
}

/// `Value::Null`.
#[verifier::external_body]
pub(crate) fn null_value() -> (value: serde_json::Value)
    ensures
        json_of(value) == Json::Null,
{
    serde_json::Value::Null
}

/// `Value::from(bool)`: the boolean.
#[verifier::external_body]
pub(crate) fn bool_value(b: bool) -> (value: serde_json::Value)
    ensures
        json_of(value) == Json::Bool(b),
{
    serde_json::Value::from(b)
}

/// `Value::from(i64)`: the number.
#[verifier::external_body]
pub(crate) fn int_value(n: i64) -> (value: serde_json::Value)
    ensures
        json_of(value) == Json::Int(n as int),
{
    serde_json::Value::from(n)
}

/// `Value::from(String)`: the text.
#[verifier::external_body]
pub(crate) fn string_value(text: String) -> (value: serde_json::Value)
    ensures
        json_of(value) == Json::Str(text@),
{
    serde_json::Value::from(text)
}

/// `Value::from(Vec<Value>)`: the array of the elements, in order.
#[verifier::external_body]
pub(crate) fn array_value(items: Vec<serde_json::Value>) -> (value: serde_json::Value)
    ensures
        json_of(value) == Json::Array(jsons(items@)),
{
    serde_json::Value::from(items)
}

/// `Value::from(Map)`: the object with the map's entries.
#[verifier::external_body]
pub(crate) fn object_value(map: serde_json::Map<String, serde_json::Value>) -> (value:
    serde_json::Value)
    ensures
        json_of(value) == Json::Object(entries_of(map)),
{
    serde_json::Value::from(map)
}

/// `Value::get` with a text: the entry of that name, of an object that has one.
#[verifier::external_body]
pub(crate) fn get<'a>(value: &'a serde_json::Value, key: &str) -> (found: Option<
    &'a serde_json::Value,
>)
    ensures
        match found {
            Some(v) => member(json_of(*value), key@) == Some(json_of(*v)),
            None => member(json_of(*value), key@) is None,
        },
{
    value.get(key)
}

/// `Value::as_array`: the elements of an array, and nothing of any other value.
#[verifier::external_body]
pub(crate) fn as_array(value: &serde_json::Value) -> (found: Option<&Vec<serde_json::Value>>)
    ensures
        match found {
            Some(items) => json_of(*value) == Json::Array(jsons(items@)),
            None => !(json_of(*value) is Array),
        },
{
    value.as_array()
}

/// `Value::as_object`: the entries of an object, and nothing of any other value.
#[verifier::external_body]
pub(crate) fn as_object(value: &serde_json::Value) -> (found: Option<
    &serde_json::Map<String, serde_json::Value>,
>)
    ensures
        match found {
            Some(map) => json_of(*value) == Json::Object(entries_of(*map)),
            None => !(json_of(*value) is Object),
        },
{
    value.as_object()
}

/// `Value::as_str`: the text of a string, and nothing of any other value.
#[verifier::external_body]
pub(crate) fn as_str(value: &serde_json::Value) -> (found: Option<&str>)
    ensures
        match found {
            Some(text) => json_of(*value) == Json::Str(text@),
            None => !(json_of(*value) is Str),
        },
{
    value.as_str()
}

/// `Value::as_bool`: the boolean, and nothing of any other value.
#[verifier::external_body]
pub(crate) fn as_bool(value: &serde_json::Value) -> (found: Option<bool>)
    ensures
        match found {
            Some(b) => json_of(*value) == Json::Bool(b),
            None => !(json_of(*value) is Bool),
        },
{
    value.as_bool()
}

/// `Value::as_i64`: an integer in the range of `i64`, and nothing of any other value.
#[verifier::external_body]
pub(crate) fn as_i64(value: &serde_json::Value) -> (found: Option<i64>)
    ensures
        match found {
            Some(n) => json_of(*value) == Json::Int(n as int),
            None => forall|n: i64| json_of(*value) != Json::Int(n as int),
        },
{
    value.as_i64()
}

/// `Value::is_null`: whether the value is null.
#[verifier::external_body]
pub(crate) fn is_null(value: &serde_json::Value) -> (null: bool)
    ensures
        null == (json_of(*value) == Json::Null),
{
    value.is_null()
}

/// `serde_json::from_str::<Value>`: the value of a text that is JSON, else nothing.
#[verifier::external_body]
pub(crate) fn parse(text: &str) -> (value: Option<serde_json::Value>)
    ensures
        json_opt(value) == parsed(text@),
{
    serde_json::from_str::<serde_json::Value>(text).ok()
}

/// `serde_json::to_string` of a value, which does not fail: the printed text stands on one line,
/// is no white space at either end, and parses back to the value as long as that nests less deep
/// than the parser's limit and holds only integers among its numbers.
#[verifier::external_body]
pub(crate) fn print(value: &serde_json::Value) -> (text: String)
    ensures
        text@ == printed(json_of(*value)),
        !text@.contains('\n'),
        text@.len() > 0,
        crate::text::trimmed(text@) == text@,
        plain(json_of(*value), 127) ==> parsed(text@) == Some(json_of(*value)),
{
    serde_json::to_string(value).unwrap_or_default()
}

/// The array of the texts `items`.
pub fn text_list_value(items: &Vec<String>) -> (value: serde_json::Value)
    ensures
        json_of(value) == text_array(crate::model::views(items@)),
{
    let mut values: Vec<serde_json::Value> = Vec::new();
    let mut i: usize = 0;
    while i < items.len()
        invariant
            i <= items@.len(),
            values@.len() == i,
            forall|j: int| 0 <= j < i ==> json_of(#[trigger] values@[j]) == Json::Str(items@[j]@),
        decreases items@.len() - i,
    {
        values.push(string_value(items[i].clone()));
        i += 1;
    }
    proof {
        let all = crate::model::views(items@);
        assert(jsons(values@) =~= Seq::new(all.len(), |k: int| Json::Str(all[k])));
    }
    array_value(values)
}

/// The text `text` as a value.
pub fn text_value(text: &str) -> (value: serde_json::Value)
    ensures
        json_of(value) == Json::Str(text@),
{
    string_value(text.to_owned())
}

/// Gives `key` the value `value` in `map`.
pub fn put(
    map: &mut serde_json::Map<String, serde_json::Value>,
    key: &str,
    value: serde_json::Value,
)
    ensures
        entries_of(*final(map)) == entries_of(*old(map)).insert(key@, json_of(value)),
{
    insert(map, key.to_owned(), value);
}

/// A copy of an optional value.
pub fn clone_option(value: &Option<serde_json::Value>) -> (copy: Option<serde_json::Value>)
    ensures
        json_opt(copy) == json_opt(*value),
{
    match value {
        Some(v) => Some(clone_value(v)),
        None => None,
    }
}

} // verus!
