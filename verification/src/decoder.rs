//! From JSON text to a host graph.
use vstd::prelude::*;
use crate::error::ConversionError;
use crate::encoder::encoded;
use crate::host::{proper, HostObject, HostValue};
use crate::json::{as_number, json_tree, members_in_order, parse, parsed};
use crate::laws::{lemma_decode_then_encode, lemma_decoded_proper};
use crate::value::{distinct_keys, distinct_names, integers_fit, JsonValue};

verus! {

/// The host graph that a JSON document is materialised as.
///
/// An integer that fits in 64 bits becomes a boxed long, never a narrower
/// box; every other number becomes a boxed double that holds the number
/// itself. Arrays and objects keep their order.
pub open spec fn decoded(v: JsonValue) -> HostValue
    decreases v,
{
    match v {
        JsonValue::Null => HostValue::Null,
        JsonValue::Bool(b) => HostValue::Boolean(b),
        JsonValue::Integer(i) => if i64::MIN <= i <= i64::MAX {
            HostValue::Long(i as i64)
        } else {
            HostValue::Double(v)
        },
        JsonValue::Float(_) => HostValue::Double(v),
        JsonValue::String(s) => HostValue::Text(s),
        JsonValue::Array(items) => HostValue::List(
            Seq::new(
                items.len(),
                |i: int|
                    if 0 <= i < items.len() {
                        decoded(items[i])
                    } else {
                        HostValue::Null
                    },
            ),
        ),
        JsonValue::Object(members) => HostValue::Dictionary(
            Seq::new(
                members.len(),
                |i: int|
                    if 0 <= i < members.len() {
                        (members[i].0, decoded(members[i].1))
                    } else {
                        (Seq::<char>::empty(), HostValue::Null)
                    },
            ),
        ),
    }
}

/// The host graph that a text decodes to, `None` where the text is not
/// well-formed JSON.
pub open spec fn decoded_text(text: Seq<char>) -> Option<HostValue> {
    match parsed(text) {
        Some(v) => Some(decoded(v)),
        None => None,
    }
}

/// Materialises a JSON value as a host graph, node by node.
///
/// `null` becomes the absent reference, a boolean a boxed boolean, a number
/// that is an integer of 64 bits a boxed long and any other number a boxed
/// double, a string a text, an array a list in order, an object a dictionary
/// with its members in order.
///
/// No object of a value names a member twice. So wherever the integers of
/// the value fit in 64 bits, the graph is a proper one and encodes to the
/// document of the value again.
#[verifier::loop_isolation(false)]
pub fn to_object(value: &serde_json::Value) -> (host: HostObject)
    ensures
        host@ == decoded(json_tree(*value)),
        distinct_names(json_tree(*value)),
        integers_fit(json_tree(*value)) ==> proper(host@) && encoded(host@) == json_tree(*value),
    decreases json_tree(*value),
{
    let host = if let Some(s) = value.as_str() {
        HostObject::Text(s.to_owned())
    } else if let Some(b) = value.as_bool() {
        HostObject::Boolean(b)
    } else if let Some(i) = value.as_i64() {
        HostObject::Long(i)
    } else if let Some(number) = as_number(value) {
        HostObject::Double(number)
    } else if let Some(elements) = value.as_array() {
        let ghost model = json_tree(*value)->Array_0;
        let mut items: Vec<HostObject> = Vec::new();
        let mut i: usize = 0;
        while i < elements.len()
            invariant
                0 <= i <= elements.len(),
                items@.len() == i,
                forall|k: int| 0 <= k < i ==> (#[trigger] items@[k])@ == decoded(model[k]),
                forall|k: int| 0 <= k < i ==> distinct_names(#[trigger] model[k]),
            decreases elements.len() - i,
        {
            proof {
                assert(json_tree(elements@[i as int]) == model[i as int]);
            }
            let item = to_object(&elements[i]);
            items.push(item);
            i += 1;
        }
        let host = HostObject::List(items);
        assert(host@->List_0 =~= decoded(json_tree(*value))->List_0);
        host
    } else if let Some(map) = value.as_object() {
        let ghost model = json_tree(*value)->Object_0;
        let members = members_in_order(map);
        let mut entries: Vec<(String, HostObject)> = Vec::new();
        let mut i: usize = 0;
        while i < members.len()
            invariant
                0 <= i <= members.len(),
                entries@.len() == i,
                forall|k: int|
                    0 <= k < i ==> (#[trigger] entries@[k]).0@ == model[k].0 && entries@[k].1@
                        == decoded(model[k].1),
                forall|k: int| 0 <= k < i ==> distinct_names((#[trigger] model[k]).1),
            decreases members.len() - i,
        {
            proof {
                assert(members@[i as int].0@ == model[i as int].0);
            }
            let key = members[i].0.clone();
            let item = to_object(members[i].1);
            entries.push((key, item));
            i += 1;
        }
        let host = HostObject::Dictionary(entries);
        assert(host@->Dictionary_0 =~= decoded(json_tree(*value))->Dictionary_0);
        assert(distinct_keys(model)) by {
            assert forall|a: int, b: int| 0 <= a < b < model.len() implies (#[trigger] model[a]).0
                != (#[trigger] model[b]).0 by {
                assert(members@[a].0@ == model[a].0);
                assert(members@[b].0@ == model[b].0);
            }
        }
        host
    } else {
        HostObject::Null
    };
    proof {
        if integers_fit(json_tree(*value)) {
            lemma_decoded_proper(json_tree(*value));
            lemma_decode_then_encode(json_tree(*value));
        }
    }
    host
}

/// Decodes JSON text into a host graph.
///
/// The text is parsed as a whole and the document materialised by
/// [`to_object`]. Text that is not well-formed JSON gives `Parse`, and
/// nothing else fails. Wherever the integers of the document fit in 64
/// bits, the graph is a proper one and encodes to that document again.
pub fn decode(text: &str) -> (r: Result<HostObject, ConversionError>)
    ensures
        match r {
            Ok(host) => decoded_text(text@) == Some(host@) && (integers_fit(
                parsed(text@)->Some_0,
            ) ==> proper(host@) && encoded(host@) == parsed(text@)->Some_0),
            Err(e) => e == ConversionError::Parse && decoded_text(text@) is None,
        },
{
    match parse(text) {
        Ok(value) => Ok(to_object(&value)),
        Err(_) => Err(ConversionError::Parse),
    }
}

} // verus!
