//! From a host graph to JSON text.
use vstd::prelude::*;
use crate::error::ConversionError;
use crate::host::{proper, HostObject, HostValue};
use crate::laws::lemma_encoded_faithful;
use crate::json::{
    compact_text, json_array, json_bool, json_long, json_null, json_number, json_object,
    json_string, json_tree, members_of, render, trees,
};
use crate::value::{faithful, is_number, with_member, JsonValue};

verus! {

/// The JSON document that stands for a host graph.
///
/// A double encodes as the number it holds: in a proper graph that is a
/// floating-point number. A double that holds an integer, as the decoder
/// builds for an integer too large for a long, encodes as that integer.
pub open spec fn encoded(h: HostValue) -> JsonValue
    decreases h, 0nat,
{
    match h {
        HostValue::Text(s) => JsonValue::String(s),
        HostValue::Boolean(b) => JsonValue::Bool(b),
        HostValue::Integer(i) => JsonValue::Integer(i as int),
        HostValue::Long(i) => JsonValue::Integer(i as int),
        HostValue::Double(number) => if is_number(number) {
            number
        } else {
            JsonValue::Null
        },
        HostValue::Dictionary(entries) => JsonValue::Object(
            encoded_members(entries, entries.len()),
        ),
        HostValue::List(items) => JsonValue::Array(
            Seq::new(
                items.len(),
                |i: int|
                    if 0 <= i < items.len() {
                        encoded(items[i])
                    } else {
                        JsonValue::Null
                    },
            ),
        ),
        HostValue::Null => JsonValue::Null,
        HostValue::Unrecognized => JsonValue::Null,
    }
}

/// The members that the first `n` entries of a host dictionary leave in a
/// JSON object, set one after the other.
pub open spec fn encoded_members(entries: Seq<(Seq<char>, HostValue)>, n: nat) -> Seq<
    (Seq<char>, JsonValue),
>
    decreases entries, n,
{
    if n == 0 || n > entries.len() {
        Seq::empty()
    } else {
        with_member(
            encoded_members(entries, (n - 1) as nat),
            entries[n - 1].0,
            encoded(entries[n - 1].1),
        )
    }
}

/// The compact text that stands for a host graph, `None` where its document
/// cannot be rendered.
pub open spec fn encoded_text(h: HostValue) -> Option<Seq<char>> {
    compact_text(encoded(h))
}

/// Builds the JSON value of a host graph, node by node.
///
/// A text becomes a string, a boolean a boolean, a 32- or 64-bit integer an
/// integer number, a double the floating-point number that it holds, a
/// dictionary an object with its entries set in iteration order, a list an
/// array in index order. The absent reference and an unrecognised object
/// become `null`: neither fails the conversion. A double that holds an
/// integer number, which no heap gives, is encoded as that integer.
#[verifier::loop_isolation(false)]
pub fn to_value(host: &HostObject) -> (value: serde_json::Value)
    ensures
        json_tree(value) == encoded(host@),
        host@ is Double && host@->Double_0 is Float ==> json_tree(value) == host@->Double_0,
        proper(host@) ==> faithful(json_tree(value)),
    decreases host,
{
    let built = match host {
        HostObject::Text(s) => json_string(s.clone()),
        HostObject::Boolean(b) => json_bool(*b),
        HostObject::Integer(i) => json_long(*i as i64),
        HostObject::Long(i) => json_long(*i),
        HostObject::Double(n) => json_number(n),
        HostObject::Dictionary(entries) => {
            let ghost model = host@->Dictionary_0;
            let mut members = serde_json::Map::new();
            let mut i: usize = 0;
            while i < entries.len()
                invariant
                    0 <= i <= entries.len(),
                    members_of(members) == encoded_members(model, i as nat),
                decreases entries.len() - i,
            {
                proof {
                    assert(decreases_to!(*host => *entries));
                    assert(decreases_to!(*entries => entries[i as int]));
                    assert(decreases_to!(entries[i as int] => entries[i as int].1));
                    assert(model[i as int] == (entries[i as int].0@, entries[i as int].1@));
                }
                let key = entries[i].0.clone();
                let value = to_value(&entries[i].1);
                members.insert(key, value);
                i += 1;
            }
            json_object(members)
        },
        HostObject::List(items) => {
            let mut values: Vec<serde_json::Value> = Vec::new();
            let mut i: usize = 0;
            while i < items.len()
                invariant
                    0 <= i <= items.len(),
                    values@.len() == i,
                    forall|k: int| 0 <= k < i ==> json_tree(#[trigger] values@[k]) == encoded(items@[k]@),
                decreases items.len() - i,
            {
                proof {
                    assert(decreases_to!(*host => *items));
                    assert(decreases_to!(*items => items[i as int]));
                }
                let value = to_value(&items[i]);
                values.push(value);
                i += 1;
            }
            assert(trees(values@) =~= encoded(host@)->Array_0);
            json_array(values)
        },
        HostObject::Null => json_null(),
        HostObject::Unrecognized => json_null(),
    };
    proof {
        if proper(host@) {
            lemma_encoded_faithful(host@);
        }
    }
    built
}

/// What an encode returns for each outcome of the rendering: the text where
/// there is one, `Serialize` where the rendering failed.
pub fn rendered(outcome: Result<String, serde_json::Error>) -> (r: Result<String, ConversionError>)
    ensures
        match outcome {
            Ok(text) => r == Ok::<String, ConversionError>(text),
            Err(_) => r == Err::<String, ConversionError>(ConversionError::Serialize),
        },
{
    match outcome {
        Ok(text) => Ok(text),
        Err(_) => Err(ConversionError::Serialize),
    }
}

/// Encodes a host graph as compact JSON text.
///
/// The text is the rendering of the value that [`to_value`] builds. The only
/// failure is one of the rendering itself, and it gives `Serialize`.
pub fn encode(host: &HostObject) -> (r: Result<String, ConversionError>)
    ensures
        match r {
            Ok(text) => encoded_text(host@) == Some(text@),
            Err(e) => e == ConversionError::Serialize && encoded_text(host@) is None,
        },
{
    let value = to_value(host);
    rendered(render(&value))
}

} // verus!
