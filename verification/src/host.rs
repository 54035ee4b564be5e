//! Host-runtime objects and the classification of a node by its capabilities.
use vstd::prelude::*;
use crate::json::number_tree;
use crate::value::JsonValue;

verus! {

/// A graph of host-runtime objects, read out of the foreign heap or ready to
/// be built in it.
#[derive(Debug, PartialEq, Eq)]
pub enum HostObject {
    /// The absent reference.
    Null,
    /// An object of a type that no capability test recognises.
    Unrecognized,
    Text(String),
    Boolean(bool),
    /// A boxed 32-bit signed integer.
    Integer(i32),
    /// A boxed 64-bit signed integer.
    Long(i64),
    /// A boxed 64-bit floating-point number, held as the JSON number that
    /// stands for it: a floating-point number in every graph read out of a
    /// heap.
    Double(serde_json::Number),
    /// A key-value container, in iteration order.
    Dictionary(Vec<(String, HostObject)>),
    /// An ordered, indexable container.
    List(Vec<HostObject>),
}

/// The mathematical tree that a [`HostObject`] graph stands for.
pub enum HostValue {
    Null,
    Unrecognized,
    Text(Seq<char>),
    Boolean(bool),
    Integer(i32),
    Long(i64),
    /// The JSON number that stands for the double.
    Double(JsonValue),
    Dictionary(Seq<(Seq<char>, HostValue)>),
    List(Seq<HostValue>),
}

/// Whether a graph is one that a host heap holds: every double in it holds a
/// floating-point number. (The decoder also builds doubles that hold an
/// integer too large for a long; such a double stands for the nearest
/// floating-point number, which only the heap's side can compute.)
pub open spec fn proper(h: HostValue) -> bool
    decreases h,
{
    match h {
        HostValue::Double(number) => number is Float,
        HostValue::Dictionary(entries) => forall|i: int|
            0 <= i < entries.len() ==> proper((#[trigger] entries[i]).1),
        HostValue::List(items) => forall|i: int|
            0 <= i < items.len() ==> proper(#[trigger] items[i]),
        _ => true,
    }
}

/// The tree that a graph stands for.
pub open spec fn host_value(h: HostObject) -> HostValue
    decreases h,
{
    match h {
        HostObject::Null => HostValue::Null,
        HostObject::Unrecognized => HostValue::Unrecognized,
        HostObject::Text(s) => HostValue::Text(s@),
        HostObject::Boolean(b) => HostValue::Boolean(b),
        HostObject::Integer(i) => HostValue::Integer(i),
        HostObject::Long(i) => HostValue::Long(i),
        HostObject::Double(n) => HostValue::Double(number_tree(n)),
        HostObject::Dictionary(entries) => HostValue::Dictionary(
            Seq::new(
                entries@.len(),
                |i: int|
                    if 0 <= i < entries@.len() {
                        (entries@[i].0@, host_value(entries@[i].1))
                    } else {
                        (Seq::<char>::empty(), HostValue::Null)
                    },
            ),
        ),
        HostObject::List(items) => HostValue::List(
            Seq::new(
                items@.len(),
                |i: int|
                    if 0 <= i < items@.len() {
                        host_value(items@[i])
                    } else {
                        HostValue::Null
                    },
            ),
        ),
    }
}

impl View for HostObject {
    type V = HostValue;

    open spec fn view(&self) -> HostValue {
        host_value(*self)
    }
}

/// What the capability tests say of one host object.
#[derive(Debug, Clone, Copy, PartialEq, Eq, Structural)]
pub struct Capabilities {
    /// It can be read as a string.
    pub text: bool,
    /// It can be read as a boolean.
    pub boolean: bool,
    /// It can be read as a number.
    pub number: bool,
    /// It is a signed integer of 32 bits.
    pub integer: bool,
    /// It is a signed integer of 64 bits.
    pub long: bool,
    /// It is a key-value container.
    pub dictionary: bool,
    /// It is an ordered, indexable container.
    pub list: bool,
}

/// How a host object is read.
#[derive(Debug, Clone, Copy, PartialEq, Eq, Structural)]
pub enum HostKind {
    Text,
    Boolean,
    /// A number read as a 64-bit signed integer.
    Integral,
    /// A number read as a 64-bit floating-point number.
    Floating,
    Dictionary,
    List,
    Unrecognized,
}

/// The kind that a set of capabilities selects. The tests are taken in a
/// fixed order and the first that holds wins: string, boolean, number,
/// dictionary, list. A number is integral where it is an integer of 32 or 64
/// bits and floating otherwise.
pub open spec fn kind_of(c: Capabilities) -> HostKind {
    if c.text {
        HostKind::Text
    } else if c.boolean {
        HostKind::Boolean
    } else if c.number {
        if c.integer || c.long {
            HostKind::Integral
        } else {
            HostKind::Floating
        }
    } else if c.dictionary {
        HostKind::Dictionary
    } else if c.list {
        HostKind::List
    } else {
        HostKind::Unrecognized
    }
}

/// Classifies a host object by its capabilities, in the order of
/// [`kind_of`]. An object with none of the five capabilities is
/// unrecognised, whatever else it is.
pub fn classify(c: &Capabilities) -> (kind: HostKind)
    ensures
        kind == kind_of(*c),
        !c.text && !c.boolean && !c.number && !c.dictionary && !c.list ==> kind
            == HostKind::Unrecognized,
{
    if c.text {
        HostKind::Text
    } else if c.boolean {
        HostKind::Boolean
    } else if c.number {
        if c.integer || c.long {
            HostKind::Integral
        } else {
            HostKind::Floating
        }
    } else if c.dictionary {
        HostKind::Dictionary
    } else if c.list {
        HostKind::List
    } else {
        HostKind::Unrecognized
    }
}

/// One capability test.
#[derive(Debug, Clone, Copy, PartialEq, Eq, Structural)]
pub enum Capability {
    Text,
    Boolean,
    Number,
    Integer,
    Long,
    Dictionary,
    List,
}

/// What follows a capability test: another test, or the kind of the object.
#[derive(Debug, Clone, Copy, PartialEq, Eq, Structural)]
pub enum Probe {
    Ask(Capability),
    Done(HostKind),
}

/// Whether the capabilities include the one that `test` asks for.
pub open spec fn answer(c: Capabilities, test: Capability) -> bool {
    match test {
        Capability::Text => c.text,
        Capability::Boolean => c.boolean,
        Capability::Number => c.number,
        Capability::Integer => c.integer,
        Capability::Long => c.long,
        Capability::Dictionary => c.dictionary,
        Capability::List => c.list,
    }
}

/// What follows the test `asked` once it has answered `holds`: a test that
/// holds settles the kind, except that a number is then asked for its width;
/// a test that fails leads to the next one in order.
pub open spec fn after(asked: Capability, holds: bool) -> Probe {
    match asked {
        Capability::Text => if holds {
            Probe::Done(HostKind::Text)
        } else {
            Probe::Ask(Capability::Boolean)
        },
        Capability::Boolean => if holds {
            Probe::Done(HostKind::Boolean)
        } else {
            Probe::Ask(Capability::Number)
        },
        Capability::Number => if holds {
            Probe::Ask(Capability::Integer)
        } else {
            Probe::Ask(Capability::Dictionary)
        },
        Capability::Integer => if holds {
            Probe::Done(HostKind::Integral)
        } else {
            Probe::Ask(Capability::Long)
        },
        Capability::Long => if holds {
            Probe::Done(HostKind::Integral)
        } else {
            Probe::Done(HostKind::Floating)
        },
        Capability::Dictionary => if holds {
            Probe::Done(HostKind::Dictionary)
        } else {
            Probe::Ask(Capability::List)
        },
        Capability::List => if holds {
            Probe::Done(HostKind::List)
        } else {
            Probe::Done(HostKind::Unrecognized)
        },
    }
}

/// How many tests can still follow `test`.
pub open spec fn tests_left(test: Capability) -> nat {
    match test {
        Capability::Text => 6,
        Capability::Boolean => 5,
        Capability::Number => 4,
        Capability::Integer => 3,
        Capability::Long => 2,
        Capability::Dictionary => 1,
        Capability::List => 0,
    }
}

/// The kind that testing one by one, from `test` on, ends in for an object
/// with the capabilities `c`.
pub open spec fn probed(c: Capabilities, test: Capability) -> HostKind
    decreases tests_left(test),
{
    match after(test, answer(c, test)) {
        Probe::Ask(next) => probed(c, next),
        Probe::Done(kind) => kind,
    }
}

/// The test that a classification starts with.
pub fn first_probe() -> (test: Capability)
    ensures
        test == Capability::Text,
{
    Capability::Text
}

/// What to do once the test `asked` has answered `holds`. Testing an object
/// one capability at a time along these steps asks no test that the kind
/// does not depend on, and ends in the kind that [`classify`] gives.
pub fn next_probe(asked: Capability, holds: bool) -> (next: Probe)
    ensures
        next == after(asked, holds),
        next matches Probe::Ask(test) ==> tests_left(test) < tests_left(asked),
{
    match asked {
        Capability::Text => if holds {
            Probe::Done(HostKind::Text)
        } else {
            Probe::Ask(Capability::Boolean)
        },
        Capability::Boolean => if holds {
            Probe::Done(HostKind::Boolean)
        } else {
            Probe::Ask(Capability::Number)
        },
        Capability::Number => if holds {
            Probe::Ask(Capability::Integer)
        } else {
            Probe::Ask(Capability::Dictionary)
        },
        Capability::Integer => if holds {
            Probe::Done(HostKind::Integral)
        } else {
            Probe::Ask(Capability::Long)
        },
        Capability::Long => if holds {
            Probe::Done(HostKind::Integral)
        } else {
            Probe::Done(HostKind::Floating)
        },
        Capability::Dictionary => if holds {
            Probe::Done(HostKind::Dictionary)
        } else {
            Probe::Ask(Capability::List)
        },
        Capability::List => if holds {
            Probe::Done(HostKind::List)
        } else {
            Probe::Done(HostKind::Unrecognized)
        },
    }
}

/// Testing one capability at a time gives the kind that all the tests
/// together select.
pub proof fn lemma_probing_classifies(c: Capabilities)
    ensures
        probed(c, Capability::Text) == kind_of(c),
{
    reveal_with_fuel(probed, 7);
}

} // verus!
