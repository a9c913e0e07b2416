//! JSON values: the mathematical model of a document and the `serde_json`
//! operations the crate relies on.
//!
//! Values stay `serde_json::Value`. Verus cannot look inside one, so each
//! operation used on them is given a contract here, stated over [`Json`], and
//! the rest of the crate is proved against those contracts.

use crate::text::ascending;
use serde_json::Value;
use vstd::prelude::*;

verus! {

/// A JSON document as a mathematical value.
///
/// A number is `Int` where `serde_json` holds it as an integer: a whole
/// number from `i64::MIN` to `u64::MAX`, written without fraction or exponent.
/// Any other number is held as a float and is `Real`, also where its value is
/// whole (`5.0`, `1e3`, 2^64); it is kept by the decimal text that stands for
/// it. An object is a finite map: member order carries no meaning.
pub enum Json {
    Null,
    Bool(bool),
    Int(int),
    Real(Seq<char>),
    Str(Seq<char>),
    Array(Seq<Json>),
    Object(Map<Seq<char>, Json>),
}

impl Json {
    /// The member `name` of an object; `None` for a missing member and for
    /// anything that is not an object.
    pub open spec fn member(self, name: Seq<char>) -> Option<Json> {
        match self {
            Json::Object(m) if m.contains_key(name) => Some(m[name]),
            _ => None,
        }
    }

    /// The element at `index` of an array; `None` past the end and for
    /// anything that is not an array.
    pub open spec fn item(self, index: int) -> Option<Json> {
        match self {
            Json::Array(s) if 0 <= index < s.len() => Some(s[index]),
            _ => None,
        }
    }

    /// The text of a string value.
    pub open spec fn text(self) -> Option<Seq<char>> {
        match self {
            Json::Str(s) => Some(s),
            _ => None,
        }
    }

    /// The truth value of a boolean.
    pub open spec fn truth(self) -> Option<bool> {
        match self {
            Json::Bool(b) => Some(b),
            _ => None,
        }
    }

    /// The number, where it is an integer that fits `u64`.
    pub open spec fn unsigned(self) -> Option<u64> {
        match self {
            Json::Int(i) if 0 <= i <= u64::MAX => Some(i as u64),
            _ => None,
        }
    }

    /// The number, where it is an integer that fits `i64`.
    pub open spec fn signed(self) -> Option<i64> {
        match self {
            Json::Int(i) if i64::MIN <= i <= i64::MAX => Some(i as i64),
            _ => None,
        }
    }

    /// The elements of an array.
    pub open spec fn elements(self) -> Option<Seq<Json>> {
        match self {
            Json::Array(s) => Some(s),
            _ => None,
        }
    }

    /// No members at all.
    pub open spec fn no_members() -> Map<Seq<char>, Json> {
        Map::empty()
    }

    /// The object with no members.
    pub open spec fn empty_object() -> Json {
        Json::Object(Map::empty())
    }

    /// An object with the member `name` set to `value`, replacing an earlier
    /// member of that name. Anything but an object is left as it is.
    pub open spec fn with(self, name: Seq<char>, value: Json) -> Json {
        match self {
            Json::Object(m) => Json::Object(m.insert(name, value)),
            other => other,
        }
    }
}

#[verifier::external_type_specification]
#[verifier::external_body]
pub struct ExValue(serde_json::Value);

#[verifier::external_type_specification]
#[verifier::external_body]
#[verifier::reject_recursive_types(K)]
#[verifier::reject_recursive_types(V)]
pub struct ExMap<K, V>(serde_json::Map<K, V>);

/// The document that a `serde_json::Value` holds.
pub uninterp spec fn value_model(v: Value) -> Json;

/// The members that a `serde_json::Map` holds, each by the document it stands
/// for.
pub uninterp spec fn map_model(m: serde_json::Map<String, Value>) -> Map<Seq<char>, Json>;

/// What `serde_json` makes of a text: the document it reads, or the message
/// with which it rejects the text.
pub uninterp spec fn json_parse(text: Seq<char>) -> Result<Json, Seq<char>>;

/// The compact text that `serde_json` prints for a document.
pub uninterp spec fn json_text(doc: Json) -> Seq<char>;

/// Whether `keys` lists the names of the members of `m` in ascending order.
pub open spec fn is_key_order(m: Map<Seq<char>, Json>, keys: Seq<Seq<char>>) -> bool {
    ascending(keys) && keys.to_set() =~= m.dom()
}

/// Whether `values` lists the value of every member of `m`, in ascending
/// order of the members' names.
pub open spec fn is_walk(m: Map<Seq<char>, Json>, values: Seq<Json>) -> bool {
    exists|keys: Seq<Seq<char>>|
        #![auto]
        is_key_order(m, keys) && values.len() == keys.len() && forall|i: int|
            0 <= i < keys.len() ==> values[i] == m[#[trigger] keys[i]]
}

/// The names of the members of a map in ascending order.
pub open spec fn key_order(m: Map<Seq<char>, Json>) -> Seq<Seq<char>> {
    choose|keys: Seq<Seq<char>>| is_key_order(m, keys)
}

/// The values of the members of a map in ascending order of their names.
pub open spec fn values_in_order(m: Map<Seq<char>, Json>) -> Seq<Json> {
    Seq::new(key_order(m).len(), |i: int| m[key_order(m)[i]])
}

/// A map has one walk: the values of its members in ascending order of
/// their names.
pub proof fn lemma_walk_is_values_in_order(m: Map<Seq<char>, Json>, values: Seq<Json>)
    requires
        is_walk(m, values),
    ensures
        values == values_in_order(m),
{
    let keys = choose|keys: Seq<Seq<char>>|
        #![auto]
        is_key_order(m, keys) && values.len() == keys.len() && forall|i: int|
            0 <= i < keys.len() ==> values[i] == m[#[trigger] keys[i]];
    assert(is_key_order(m, keys));
    let order = key_order(m);
    assert(is_key_order(m, order));
    crate::text::lemma_ascending_unique(keys, order);
    assert(values =~= values_in_order(m));
}

/// The documents held by a sequence of borrowed values.
pub open spec fn ref_models(values: Seq<&Value>) -> Seq<Json> {
    Seq::new(values.len(), |i: int| value_model(*values[i]))
}

/// The documents held by a sequence of values.
pub open spec fn models(values: Seq<Value>) -> Seq<Json> {
    Seq::new(values.len(), |i: int| value_model(values[i]))
}

/// `serde_json::from_str` at type `Value`. The outcome depends on the text
/// alone: either the value read, or the parser's error, handed on as the
/// message it displays.
#[verifier::external_body]
pub(crate) fn parse_value(text: &str) -> (r: Result<Value, String>)
    ensures
        match r {
            Ok(v) => json_parse(text@) == Ok::<Json, Seq<char>>(value_model(v)),
            Err(m) => json_parse(text@) == Err::<Json, Seq<char>>(m@),
        },
{
    serde_json::from_str::<Value>(text).map_err(|e| e.to_string())
}

/// `Value`'s `Display`: the compact JSON text of the value, which depends on
/// the document alone. Printing a `Value` cannot fail: its keys are strings
/// and its numbers are finite.
#[verifier::external_body]
pub(crate) fn value_text(v: &Value) -> (s: String)
    ensures
        s@ == json_text(value_model(*v)),
{
    v.to_string()
}

/// `Value::get` with a string index: the named member of an object, and
/// `None` for a missing member or a value that is not an object.
#[verifier::external_body]
pub(crate) fn value_member<'a>(v: &'a Value, name: &str) -> (r: Option<&'a Value>)
    ensures
        match r {
            Some(x) => value_model(*v).member(name@) == Some(value_model(*x)),
            None => value_model(*v).member(name@) is None,
        },
{
    v.get(name)
}

/// `Value::get` with a number index: the element of an array at that
/// position, and `None` past the end or for a value that is not an array.
#[verifier::external_body]
pub(crate) fn value_item<'a>(v: &'a Value, index: usize) -> (r: Option<&'a Value>)
    ensures
        match r {
            Some(x) => value_model(*v).item(index as int) == Some(value_model(*x)),
            None => value_model(*v).item(index as int) is None,
        },
{
    v.get(index)
}

/// `Value::clone`: a value that holds the same document.
#[verifier::external_body]
pub(crate) fn value_copy(v: &Value) -> (r: Value)
    ensures
        value_model(r) == value_model(*v),
{
    v.clone()
}

/// `Value::Null`.
#[verifier::external_body]
pub(crate) fn null_value() -> (r: Value)
    ensures
        value_model(r) == Json::Null,
{
    Value::Null
}

/// `Value::from` for `bool`.
#[verifier::external_body]
pub(crate) fn bool_value(b: bool) -> (r: Value)
    ensures
        value_model(r) == Json::Bool(b),
{
    Value::from(b)
}

/// `Value::from` for `u64`: the number itself.
#[verifier::external_body]
pub(crate) fn unsigned_value(n: u64) -> (r: Value)
    ensures
        value_model(r) == Json::Int(n as int),
{
    Value::from(n)
}

/// `Value::from` for `&str`: a string value with that text.
#[verifier::external_body]
pub(crate) fn text_value(s: &str) -> (r: Value)
    ensures
        value_model(r) == Json::Str(s@),
{
    Value::from(s)
}

/// `Value::Array`: an array with these elements, in this order.
#[verifier::external_body]
pub(crate) fn array_value(items: Vec<Value>) -> (r: Value)
    ensures
        value_model(r) == Json::Array(models(items@)),
{
    Value::Array(items)
}

/// `Map::new`: a map without members.
#[verifier::external_body]
pub(crate) fn map_new() -> (r: serde_json::Map<String, Value>)
    ensures
        map_model(r) == Json::no_members(),
{
    serde_json::Map::new()
}

/// `Map::insert`: the map then holds `value` under `key`, in place of what it
/// held there before; the other members stay.
#[verifier::external_body]
pub(crate) fn map_insert(m: &mut serde_json::Map<String, Value>, key: &str, value: Value)
    ensures
        map_model(*final(m)) == map_model(*old(m)).insert(key@, value_model(value)),
{
    m.insert(key.to_owned(), value);
}

/// `Value::Object`: an object with the members of the map.
#[verifier::external_body]
pub(crate) fn object_value(m: serde_json::Map<String, Value>) -> (r: Value)
    ensures
        value_model(r) == Json::Object(map_model(m)),
{
    Value::Object(m)
}

/// `Value::as_str`: the text of a string value, `None` for any other value.
#[verifier::external_body]
pub(crate) fn value_as_str<'a>(v: &'a Value) -> (r: Option<&'a str>)
    ensures
        match r {
            Some(s) => value_model(*v).text() == Some(s@),
            None => value_model(*v).text() is None,
        },
{
    v.as_str()
}

/// `Value::as_bool`: the truth value of a boolean, `None` for any other
/// value.
#[verifier::external_body]
pub(crate) fn value_as_bool(v: &Value) -> (r: Option<bool>)
    ensures
        r == value_model(*v).truth(),
{
    v.as_bool()
}

/// `Value::as_u64`: the number where the value is an integer from 0 to
/// `u64::MAX`, `None` for any other value.
#[verifier::external_body]
pub(crate) fn value_as_u64(v: &Value) -> (r: Option<u64>)
    ensures
        r == value_model(*v).unsigned(),
{
    v.as_u64()
}

/// `Value::as_i64`: the number where the value is an integer from `i64::MIN`
/// to `i64::MAX`, `None` for any other value.
#[verifier::external_body]
pub(crate) fn value_as_i64(v: &Value) -> (r: Option<i64>)
    ensures
        r == value_model(*v).signed(),
{
    v.as_i64()
}

/// `Value::as_array`: the elements of an array, `None` for any other value.
#[verifier::external_body]
pub(crate) fn value_as_array<'a>(v: &'a Value) -> (r: Option<&'a Vec<Value>>)
    ensures
        match r {
            Some(items) => value_model(*v).elements() == Some(models(items@)),
            None => value_model(*v).elements() is None,
        },
{
    v.as_array()
}

/// `Value::is_null`.
#[verifier::external_body]
pub(crate) fn value_is_null(v: &Value) -> (r: bool)
    ensures
        r == (value_model(*v) == Json::Null),
{
    v.is_null()
}

/// `Value::as_object`: the map of an object, `None` for any other value.
#[verifier::external_body]
pub(crate) fn value_as_object<'a>(v: &'a Value) -> (r: Option<
    &'a serde_json::Map<String, Value>,
>)
    ensures
        match r {
            Some(m) => value_model(*v) == Json::Object(map_model(*m)),
            None => !(value_model(*v) is Object),
        },
{
    v.as_object()
}

/// `Map::values`, collected: the value of every member, each once, in the
/// map's order. The crate is built without `preserve_order`, so a map is a
/// `BTreeMap` and its order is that of the keys, which std orders as
/// strings.
#[verifier::external_body]
pub(crate) fn map_values<'a>(m: &'a serde_json::Map<String, Value>) -> (r: Vec<&'a Value>)
    ensures
        is_walk(map_model(*m), ref_models(r@)),
{
    m.values().collect()
}

} // verus!
