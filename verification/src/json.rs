//! What this library takes on trust from `serde_json`.
//!
//! A `serde_json::Value` is opaque to the verifier. Its contents are named by
//! [`json_tree`], and every item below states, over that name, what the
//! function it stands for does. None of these statements is proved here.
use vstd::prelude::*;
use crate::value::{with_member, JsonValue};

verus! {

#[verifier::external_type_specification]
#[verifier::external_body]
pub struct ExValue(serde_json::Value);

#[verifier::external_type_specification]
#[verifier::external_body]
#[verifier::reject_recursive_types(K)]
#[verifier::reject_recursive_types(V)]
pub struct ExMap<K, V>(serde_json::Map<K, V>);

#[verifier::external_type_specification]
#[verifier::external_body]
pub struct ExNumber(serde_json::Number);

#[verifier::external_type_specification]
#[verifier::external_body]
pub struct ExError(serde_json::Error);

/// The JSON document that a `serde_json::Value` holds. An integer number is
/// an `Integer`, whichever sign it has; a floating-point number is a `Float`
/// with the bit pattern of the number; an object lists its members in the
/// order in which the map iterates.
pub uninterp spec fn json_tree(v: serde_json::Value) -> JsonValue;

/// The members that a `serde_json::Map` holds, in iteration order, each value
/// as the document it holds.
pub uninterp spec fn members_of(m: serde_json::Map<String, serde_json::Value>) -> Seq<
    (Seq<char>, JsonValue),
>;

/// The document that `serde_json::from_str` reads from a text, `None` where
/// it reports an error.
pub uninterp spec fn parsed(text: Seq<char>) -> Option<JsonValue>;

/// The text that `serde_json::to_string` writes for a document, `None`
/// where it reports an error.
pub uninterp spec fn compact_text(v: JsonValue) -> Option<Seq<char>>;

/// The text that `serde_json::to_string_pretty` writes for a document,
/// `None` where it reports an error.
pub uninterp spec fn pretty_text(v: JsonValue) -> Option<Seq<char>>;

/// The JSON number that a `serde_json::Number` holds: an `Integer` or a
/// `Float`, as in [`json_tree`].
pub uninterp spec fn number_tree(n: serde_json::Number) -> JsonValue;

/// The documents that a sequence of values holds, one by one.
pub open spec fn trees(items: Seq<serde_json::Value>) -> Seq<JsonValue> {
    items.map_values(|v: serde_json::Value| json_tree(v))
}

/// `serde_json::from_str`, read as a `Value`: the parse either succeeds with
/// the document named by [`parsed`] or fails, in which case [`parsed`] is
/// `None`.
#[verifier::external_body]
pub(crate) fn parse(text: &str) -> (r: Result<serde_json::Value, serde_json::Error>)
    ensures
        match r {
            Ok(v) => parsed(text@) == Some(json_tree(v)),
            Err(_) => parsed(text@) is None,
        },
{
    serde_json::from_str(text)
}

/// `serde_json::to_string` on a `Value`: the rendering either succeeds with
/// the text named by [`compact_text`] or fails, in which case
/// [`compact_text`] is `None`. Nothing is claimed about when it succeeds.
#[verifier::external_body]
pub(crate) fn render(v: &serde_json::Value) -> (r: Result<String, serde_json::Error>)
    ensures
        match r {
            Ok(s) => compact_text(json_tree(*v)) == Some(s@),
            Err(_) => compact_text(json_tree(*v)) is None,
        },
{
    serde_json::to_string(v)
}

/// `serde_json::to_string_pretty` on a `Value`: the rendering either succeeds
/// with the text named by [`pretty_text`] or fails, in which case
/// [`pretty_text`] is `None`. Nothing is claimed about when it succeeds.
#[verifier::external_body]
pub(crate) fn render_pretty(v: &serde_json::Value) -> (r: Result<String, serde_json::Error>)
    ensures
        match r {
            Ok(s) => pretty_text(json_tree(*v)) == Some(s@),
            Err(_) => pretty_text(json_tree(*v)) is None,
        },
{
    serde_json::to_string_pretty(v)
}

/// `Value::as_str`: the text of a string, `None` for every other variant.
pub assume_specification[ serde_json::Value::as_str ](v: &serde_json::Value) -> (r: Option<&str>)
    ensures
        match json_tree(*v) {
            JsonValue::String(s) => r is Some && r.unwrap()@ == s,
            _ => r is None,
        },
;

/// `Value::as_bool`: the boolean, `None` for every other variant.
pub assume_specification[ serde_json::Value::as_bool ](v: &serde_json::Value) -> (r: Option<bool>)
    ensures
        r == (match json_tree(*v) {
            JsonValue::Bool(b) => Some(b),
            _ => None,
        }),
;

/// `Value::as_i64`: an integer number that fits in `i64`, `None` for a larger
/// integer, for a floating-point number and for every other variant.
pub assume_specification[ serde_json::Value::as_i64 ](v: &serde_json::Value) -> (r: Option<i64>)
    ensures
        r == (match json_tree(*v) {
            JsonValue::Integer(i) => if i64::MIN <= i <= i64::MAX {
                Some(i as i64)
            } else {
                None
            },
            _ => None,
        }),
;

/// `Value::as_number`, cloned: the number of a number, integer or
/// floating-point, `None` for every other variant.
#[verifier::external_body]
pub(crate) fn as_number(v: &serde_json::Value) -> (r: Option<serde_json::Number>)
    ensures
        match json_tree(*v) {
            JsonValue::Integer(_) | JsonValue::Float(_) => r is Some && number_tree(r.unwrap())
                == json_tree(*v),
            _ => r is None,
        },
{
    v.as_number().cloned()
}

/// `Value::as_array`: the elements of an array, `None` for every other
/// variant.
pub assume_specification[ serde_json::Value::as_array ](v: &serde_json::Value) -> (r: Option<
    &Vec<serde_json::Value>,
>)
    ensures
        match json_tree(*v) {
            JsonValue::Array(items) => r is Some && trees(r.unwrap()@) == items,
            _ => r is None,
        },
;

/// `Value::as_object`: the map of an object, `None` for every other variant.
pub assume_specification[ serde_json::Value::as_object ](v: &serde_json::Value) -> (r: Option<
    &serde_json::Map<String, serde_json::Value>,
>)
    ensures
        match json_tree(*v) {
            JsonValue::Object(members) => r is Some && members_of(*r.unwrap()) == members,
            _ => r is None,
        },
;

/// `Map::iter`, collected: the members of the map in iteration order. No two
/// of them share a key, since a map holds each key once.
#[verifier::external_body]
pub(crate) fn members_in_order<'a>(m: &'a serde_json::Map<String, serde_json::Value>) -> (r: Vec<
    (&'a String, &'a serde_json::Value),
>)
    ensures
        r@.len() == members_of(*m).len(),
        forall|i: int|
            0 <= i < r@.len() ==> (#[trigger] r@[i]).0@ == members_of(*m)[i].0 && json_tree(
                *r@[i].1,
            ) == members_of(*m)[i].1,
        forall|i: int, j: int|
            0 <= i < j < r@.len() ==> (#[trigger] r@[i]).0@ != (#[trigger] r@[j]).0@,
{
    m.iter().collect()
}

/// `Map::new`: a map without members.
pub assume_specification[ serde_json::Map::<String, serde_json::Value>::new ]() -> (m:
    serde_json::Map<String, serde_json::Value>)
    ensures
        members_of(m) == Seq::<(Seq<char>, JsonValue)>::empty(),
;

/// `Map::insert` on the insertion-ordered map: a key that the map holds keeps
/// its place and takes the new value, a new key goes last.
pub assume_specification[ serde_json::Map::<String, serde_json::Value>::insert ](
    m: &mut serde_json::Map<String, serde_json::Value>,
    k: String,
    v: serde_json::Value,
) -> (r: Option<serde_json::Value>)
    ensures
        members_of(*final(m)) == with_member(members_of(*old(m)), k@, json_tree(v)),
;

/// The variant `Value::Null`.
#[verifier::external_body]
pub(crate) fn json_null() -> (r: serde_json::Value)
    ensures
        json_tree(r) == JsonValue::Null,
{
    serde_json::Value::Null
}

/// The variant `Value::Bool`.
#[verifier::external_body]
pub(crate) fn json_bool(b: bool) -> (r: serde_json::Value)
    ensures
        json_tree(r) == JsonValue::Bool(b),
{
    serde_json::Value::Bool(b)
}

/// The variant `Value::String`.
#[verifier::external_body]
pub(crate) fn json_string(s: String) -> (r: serde_json::Value)
    ensures
        json_tree(r) == JsonValue::String(s@),
{
    serde_json::Value::String(s)
}

/// `Value::from` on an `i64`: the integer number of that value.
#[verifier::external_body]
pub(crate) fn json_long(i: i64) -> (r: serde_json::Value)
    ensures
        json_tree(r) == JsonValue::Integer(i as int),
{
    serde_json::Value::from(i)
}

/// The variant `Value::Number` around a clone of the number: the value holds
/// the same number, and a number is an integer or a floating-point number.
#[verifier::external_body]
pub(crate) fn json_number(n: &serde_json::Number) -> (r: serde_json::Value)
    ensures
        json_tree(r) == number_tree(*n),
        json_tree(r) is Integer || json_tree(r) is Float,
{
    serde_json::Value::Number(n.clone())
}

/// The variant `Value::Array`.
#[verifier::external_body]
pub(crate) fn json_array(items: Vec<serde_json::Value>) -> (r: serde_json::Value)
    ensures
        json_tree(r) == JsonValue::Array(trees(items@)),
{
    serde_json::Value::Array(items)
}

/// The variant `Value::Object`.
#[verifier::external_body]
pub(crate) fn json_object(m: serde_json::Map<String, serde_json::Value>) -> (r: serde_json::Value)
    ensures
        json_tree(r) == JsonValue::Object(members_of(m)),
{
    serde_json::Value::Object(m)
}

} // verus!
