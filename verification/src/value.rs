//! The JSON data model as a mathematical tree.
use vstd::prelude::*;

verus! {

/// A JSON document.
///
/// Numbers keep the distinction between integral and fractional literals:
/// an `Integer` is a literal without fraction or exponent, a `Float` is a
/// finite binary64 number, told from every other by its IEEE-754 bit
/// pattern.
pub enum JsonValue {
    Null,
    Bool(bool),
    Integer(int),
    Float(u64),
    String(Seq<char>),
    Array(Seq<JsonValue>),
    /// The members in insertion order.
    Object(Seq<(Seq<char>, JsonValue)>),
}

/// Whether some member of `members` is named `key`.
pub open spec fn has_key(members: Seq<(Seq<char>, JsonValue)>, key: Seq<char>) -> bool {
    exists|i: int| 0 <= i < members.len() && (#[trigger] members[i]).0 == key
}

/// The position of a member named `key`, where there is one.
pub open spec fn key_index(members: Seq<(Seq<char>, JsonValue)>, key: Seq<char>) -> int {
    choose|i: int| 0 <= i < members.len() && (#[trigger] members[i]).0 == key
}

/// The members after `key` is set to `value`: a member of that name keeps
/// its place and takes the new value, a new name goes last.
pub open spec fn with_member(
    members: Seq<(Seq<char>, JsonValue)>,
    key: Seq<char>,
    value: JsonValue,
) -> Seq<(Seq<char>, JsonValue)> {
    if has_key(members, key) {
        members.update(key_index(members, key), (key, value))
    } else {
        members.push((key, value))
    }
}

/// No two members share a name.
pub open spec fn distinct_keys(members: Seq<(Seq<char>, JsonValue)>) -> bool {
    forall|i: int, j: int|
        0 <= i < j < members.len() ==> (#[trigger] members[i]).0 != (#[trigger] members[j]).0
}

/// Whether a document is a number.
pub open spec fn is_number(v: JsonValue) -> bool {
    v is Integer || v is Float
}

/// Whether no object in the document names a member twice.
pub open spec fn distinct_names(v: JsonValue) -> bool
    decreases v,
{
    match v {
        JsonValue::Array(items) => forall|i: int|
            0 <= i < items.len() ==> distinct_names(#[trigger] items[i]),
        JsonValue::Object(members) => distinct_keys(members) && forall|i: int|
            0 <= i < members.len() ==> distinct_names((#[trigger] members[i]).1),
        _ => true,
    }
}

/// Whether every integer in the document fits in 64 bits, signed.
pub open spec fn integers_fit(v: JsonValue) -> bool
    decreases v,
{
    match v {
        JsonValue::Integer(i) => i64::MIN <= i <= i64::MAX,
        JsonValue::Array(items) => forall|i: int|
            0 <= i < items.len() ==> integers_fit(#[trigger] items[i]),
        JsonValue::Object(members) => forall|i: int|
            0 <= i < members.len() ==> integers_fit((#[trigger] members[i]).1),
        _ => true,
    }
}

/// Whether a document survives being materialised in a host heap and encoded
/// again: no object in it names a member twice, and every integer in it fits
/// in 64 bits.
pub open spec fn faithful(v: JsonValue) -> bool {
    distinct_names(v) && integers_fit(v)
}

} // verus!
