//! What holds of the encoder and the decoder taken together.
use vstd::prelude::*;
use crate::decoder::{decoded, decoded_text};
use crate::encoder::{encoded, encoded_members, encoded_text};
use crate::host::{proper, HostValue};
use crate::json::parsed;
use crate::pretty::pretty_printed;
use crate::value::{
    distinct_keys, distinct_names, faithful, has_key, integers_fit, key_index, with_member,
    JsonValue,
};

verus! {

/// Setting a member keeps the names distinct, and every member afterwards
/// is the one that was set or one that was there before.
proof fn lemma_with_member(members: Seq<(Seq<char>, JsonValue)>, key: Seq<char>, value: JsonValue)
    requires
        distinct_keys(members),
    ensures
        distinct_keys(with_member(members, key, value)),
        forall|i: int|
            0 <= i < with_member(members, key, value).len() ==> {
                let m = #[trigger] with_member(members, key, value)[i];
                m == (key, value) || (i < members.len() && m == members[i])
            },
{
    if has_key(members, key) {
        let at = key_index(members, key);
        let after = members.update(at, (key, value));
        assert forall|i: int, j: int| 0 <= i < j < after.len() implies (#[trigger] after[i]).0 != (
        #[trigger] after[j]).0 by {
            assert(after[i].0 == members[i].0);
            assert(after[j].0 == members[j].0);
        }
    } else {
        let after = members.push((key, value));
        assert forall|i: int, j: int| 0 <= i < j < after.len() implies (#[trigger] after[i]).0 != (
        #[trigger] after[j]).0 by {
            assert(after[i] == members[i]);
            if j < members.len() {
                assert(after[j] == members[j]);
            }
        }
    }
}

/// The members that a dictionary leaves have distinct names and faithful
/// values.
proof fn lemma_encoded_members_faithful(entries: Seq<(Seq<char>, HostValue)>, n: nat)
    requires
        n <= entries.len(),
        forall|i: int| 0 <= i < entries.len() ==> proper((#[trigger] entries[i]).1),
    ensures
        distinct_keys(encoded_members(entries, n)),
        forall|i: int|
            0 <= i < encoded_members(entries, n).len() ==> faithful(
                (#[trigger] encoded_members(entries, n)[i]).1,
            ),
    decreases entries, n,
{
    if n > 0 {
        let before = encoded_members(entries, (n - 1) as nat);
        let key = entries[n - 1].0;
        let value = encoded(entries[n - 1].1);
        lemma_encoded_members_faithful(entries, (n - 1) as nat);
        lemma_encoded_faithful(entries[n - 1].1);
        lemma_with_member(before, key, value);
    }
}

/// Every document that the encoder builds from a proper graph is faithful.
pub proof fn lemma_encoded_faithful(h: HostValue)
    requires
        proper(h),
    ensures
        faithful(encoded(h)),
    decreases h, 0nat,
{
    match h {
        HostValue::Dictionary(entries) => {
            lemma_encoded_members_faithful(entries, entries.len());
        },
        HostValue::List(items) => {
            assert forall|i: int| 0 <= i < items.len() implies faithful(
                #[trigger] encoded(h)->Array_0[i],
            ) by {
                lemma_encoded_faithful(items[i]);
            }
        },
        _ => {},
    }
}

/// Encoding the first `n` entries of what an object with distinct names was
/// materialised as gives back its first `n` members.
proof fn lemma_members_return(members: Seq<(Seq<char>, JsonValue)>, n: nat)
    requires
        n <= members.len(),
        distinct_keys(members),
        forall|i: int|
            0 <= i < members.len() ==> encoded(decoded((#[trigger] members[i]).1)) == members[i].1,
    ensures
        encoded_members(decoded(JsonValue::Object(members))->Dictionary_0, n) == members.subrange(
            0,
            n as int,
        ),
    decreases n,
{
    let entries = decoded(JsonValue::Object(members))->Dictionary_0;
    if n == 0 {
        assert(encoded_members(entries, n) =~= members.subrange(0, 0));
    } else {
        lemma_members_return(members, (n - 1) as nat);
        let before = members.subrange(0, n - 1);
        let key = members[n - 1].0;
        assert(entries[n - 1] == (key, decoded(members[n - 1].1)));
        if has_key(before, key) {
            let i = key_index(before, key);
            assert(before[i] == members[i]);
        }
        assert(before.push(members[n - 1]) =~= members.subrange(0, n as int));
    }
}

/// Materialising a faithful document and encoding the graph again gives the
/// document back, with arrays and objects in their order.
pub proof fn lemma_decode_then_encode(v: JsonValue)
    requires
        faithful(v),
    ensures
        encoded(decoded(v)) == v,
    decreases v,
{
    match v {
        JsonValue::Array(items) => {
            assert forall|i: int| 0 <= i < items.len() implies encoded(
                decoded(#[trigger] items[i]),
            ) == items[i] by {
                lemma_decode_then_encode(items[i]);
            }
            assert(encoded(decoded(v))->Array_0 =~= items);
        },
        JsonValue::Object(members) => {
            assert forall|i: int| 0 <= i < members.len() implies encoded(
                decoded((#[trigger] members[i]).1),
            ) == members[i].1 by {
                lemma_decode_then_encode(members[i].1);
            }
            lemma_members_return(members, members.len());
            assert(members.subrange(0, members.len() as int) =~= members);
        },
        _ => {},
    }
}

/// What a document without oversized integers is materialised as is a
/// proper graph.
pub proof fn lemma_decoded_proper(v: JsonValue)
    requires
        integers_fit(v),
    ensures
        proper(decoded(v)),
    decreases v,
{
    match v {
        JsonValue::Array(items) => {
            assert forall|i: int| 0 <= i < items.len() implies proper(
                #[trigger] decoded(v)->List_0[i],
            ) by {
                lemma_decoded_proper(items[i]);
            }
        },
        JsonValue::Object(members) => {
            assert forall|i: int| 0 <= i < members.len() implies proper(
                (#[trigger] decoded(v)->Dictionary_0[i]).1,
            ) by {
                lemma_decoded_proper(members[i].1);
            }
        },
        _ => {},
    }
}

/// Round trip on value trees: the graph that the document of a proper graph
/// is materialised as is proper, and encodes to that same document.
pub proof fn lemma_reencode(h: HostValue)
    requires
        proper(h),
    ensures
        proper(decoded(encoded(h))),
        encoded(decoded(encoded(h))) == encoded(h),
{
    lemma_encoded_faithful(h);
    lemma_decoded_proper(encoded(h));
    lemma_decode_then_encode(encoded(h));
}

/// Round trip through text: wherever the encoder renders a text and the
/// parser reads back the document that was rendered, decoding that text
/// succeeds, and the graph that comes out encodes to the value tree, and so
/// to the text, of the graph that went in.
pub proof fn lemma_round_trip(h: HostValue)
    requires
        proper(h),
    ensures
        encoded_text(h) is Some && parsed(encoded_text(h)->Some_0) == Some(encoded(h))
            ==> decoded_text(encoded_text(h)->Some_0) is Some && encoded(
            decoded_text(encoded_text(h)->Some_0)->Some_0,
        ) == encoded(h) && encoded_text(decoded_text(encoded_text(h)->Some_0)->Some_0)
            == encoded_text(h),
{
    lemma_reencode(h);
}

/// Integers stay integral: a boxed integer of either width comes back as the
/// boxed long of the same value.
pub proof fn lemma_integer_fidelity(h: HostValue)
    requires
        h is Integer || h is Long,
    ensures
        encoded(h) is Integer,
        h matches HostValue::Integer(i) ==> decoded(encoded(h)) == HostValue::Long(i as i64),
        h matches HostValue::Long(i) ==> decoded(encoded(h)) == h,
{
}

/// Doubles stay doubles: a double that holds a floating-point number comes
/// back holding the same number.
pub proof fn lemma_double_fidelity(number: JsonValue)
    requires
        number is Float,
    ensures
        encoded(HostValue::Double(number)) == number,
        decoded(encoded(HostValue::Double(number))) == HostValue::Double(number),
{
}

/// A second round trip changes nothing: what an encoded graph is
/// materialised as is materialised as itself again.
pub proof fn lemma_round_trip_settles(h: HostValue)
    requires
        proper(h),
    ensures
        decoded(encoded(decoded(encoded(h)))) == decoded(encoded(h)),
{
    lemma_reencode(h);
}

/// Pretty-printing twice is pretty-printing once: for every text whose
/// indented form the parser reads back as the document it was rendered from,
/// pretty-printing that form succeeds and gives the form itself.
pub proof fn lemma_pretty_print_idempotent(text: Seq<char>)
    ensures
        match pretty_printed(text) {
            Some(once) => parsed(once) == parsed(text) ==> pretty_printed(once) == Some(once),
            None => true,
        },
{
}

} // verus!
