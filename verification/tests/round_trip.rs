use xson::decoder::{decode, to_object};
use xson::encoder::{encode, to_value};
use xson::error::ConversionError;
use xson::host::HostObject;
use xson::pretty::pretty_print;

fn text(s: &str) -> HostObject {
    HostObject::Text(String::from(s))
}

fn double(d: f64) -> HostObject {
    HostObject::Double(serde_json::Number::from_f64(d).unwrap())
}

fn entry(key: &str, value: HostObject) -> (String, HostObject) {
    (String::from(key), value)
}

fn sample() -> HostObject {
    HostObject::Dictionary(vec![
        entry("name", text("x\u{e9}\"y")),
        entry("flag", HostObject::Boolean(false)),
        entry("count", HostObject::Integer(42)),
        entry("big", HostObject::Long(i64::MIN)),
        entry("ratio", double(3.14)),
        entry("nothing", HostObject::Null),
        entry("odd", HostObject::Unrecognized),
        entry("huge", HostObject::Double(serde_json::Number::from(u64::MAX))),
        entry(
            "items",
            HostObject::List(vec![
                HostObject::Long(1),
                HostObject::List(vec![]),
                HostObject::Dictionary(vec![entry("b", HostObject::Boolean(true))]),
            ]),
        ),
        entry("count", HostObject::Integer(43)),
    ])
}

fn nested_list(depth: usize) -> HostObject {
    let mut host = HostObject::List(vec![]);
    for _ in 1..depth {
        host = HostObject::List(vec![host]);
    }
    host
}

#[test]
fn integer_round_trip_stays_integral() {
    let out = encode(&HostObject::Integer(42)).unwrap();
    assert_eq!(out, "42");
    assert!(!out.contains('.'));
    assert_eq!(decode(&out), Ok(HostObject::Long(42)));
}

#[test]
fn long_round_trip_is_exact() {
    for value in [0i64, -1, 1, i64::MAX, i64::MIN, 9007199254740993] {
        let out = encode(&HostObject::Long(value)).unwrap();
        assert_eq!(decode(&out), Ok(HostObject::Long(value)));
    }
}

#[test]
fn double_round_trip_is_equal() {
    let out = encode(&double(3.14)).unwrap();
    match decode(&out) {
        Ok(HostObject::Double(number)) => assert_eq!(number.as_f64(), Some(3.14)),
        other => panic!("not a double: {:?}", other),
    }
}

#[test]
fn whole_double_round_trip_stays_a_double() {
    let out = encode(&double(42.0)).unwrap();
    assert_eq!(out, "42.0");
    assert_eq!(decode(&out), Ok(double(42.0)));
}

#[test]
fn reencoding_reproduces_the_value_tree() {
    let first = to_value(&sample());
    let out = encode(&sample()).unwrap();
    let back = decode(&out).unwrap();
    let second = to_value(&back);
    assert_eq!(second, first);
    let first_keys: Vec<&String> = first.as_object().unwrap().keys().collect();
    let second_keys: Vec<&String> = second.as_object().unwrap().keys().collect();
    assert_eq!(second_keys, first_keys);
    assert_eq!(encode(&back).unwrap(), out);
}

#[test]
fn rebuilding_a_materialised_value_gives_it_back() {
    let value: serde_json::Value =
        serde_json::from_str("{\"b\":[1,-2,3.5,\"s\",null,true],\"a\":{\"c\":{}}}").unwrap();
    assert_eq!(to_value(&to_object(&value)), value);
}

#[test]
fn nested_structure_reencodes_to_an_equal_value() {
    let source = "{\"a\":[1,2,{\"b\":true}]}";
    let host = decode(source).unwrap();
    let out = encode(&host).unwrap();
    let again: serde_json::Value = serde_json::from_str(&out).unwrap();
    let first: serde_json::Value = serde_json::from_str(source).unwrap();
    assert_eq!(again, first);
}

#[test]
fn lossy_nodes_settle_after_one_round() {
    let host = HostObject::List(vec![
        HostObject::Unrecognized,
        HostObject::Integer(7),
        HostObject::Double(serde_json::Number::from(8u64)),
    ]);
    let back = decode(&encode(&host).unwrap()).unwrap();
    assert_eq!(
        back,
        HostObject::List(vec![HostObject::Null, HostObject::Long(7), HostObject::Long(8)])
    );
    assert_eq!(decode(&encode(&back).unwrap()), Ok(back));
}

#[test]
fn a_graph_nested_beyond_the_parser_limit_does_not_come_back() {
    let shallow = nested_list(100);
    assert_eq!(decode(&encode(&shallow).unwrap()), Ok(nested_list(100)));
    let deep = nested_list(200);
    let out = encode(&deep).unwrap();
    assert_eq!(out.len(), 400);
    assert_eq!(decode(&out), Err(ConversionError::Parse));
}

#[test]
fn pretty_prints_on_several_lines() {
    assert_eq!(
        pretty_print("{\"a\":[1,2],\"b\":{}}"),
        Ok(String::from("{\n  \"a\": [\n    1,\n    2\n  ],\n  \"b\": {}\n}"))
    );
}

#[test]
fn pretty_prints_scalars_unchanged() {
    assert_eq!(pretty_print(" 42 "), Ok(String::from("42")));
    assert_eq!(pretty_print("\"s\""), Ok(String::from("\"s\"")));
    assert_eq!(pretty_print("null"), Ok(String::from("null")));
    assert_eq!(pretty_print("1.50"), Ok(String::from("1.5")));
}

#[test]
fn pretty_print_keeps_the_document() {
    let source = "{\"z\":[true,null,{\"k\":\"v\"}],\"a\":-3,\"f\":2.5e3}";
    let out = pretty_print(source).unwrap();
    let before: serde_json::Value = serde_json::from_str(source).unwrap();
    let after: serde_json::Value = serde_json::from_str(&out).unwrap();
    assert_eq!(after, before);
    let keys: Vec<&String> = after.as_object().unwrap().keys().collect();
    assert_eq!(keys, vec!["z", "a", "f"]);
}

#[test]
fn pretty_print_is_idempotent() {
    for source in [
        "{\"a\":[1,2,{\"b\":true}]}",
        "[]",
        "{}",
        "[[],[[]],{\"x\":{}}]",
        "  \"text with \\n escape\"  ",
        "[1.0, 2.5e10, -0.0, 18446744073709551615, -9223372036854775808]",
        "null",
    ] {
        let once = pretty_print(source).unwrap();
        let twice = pretty_print(&once).unwrap();
        assert_eq!(twice, once);
    }
}

#[test]
fn pretty_print_rejects_malformed_text() {
    assert_eq!(pretty_print("{invalid"), Err(ConversionError::Parse));
    assert_eq!(pretty_print(""), Err(ConversionError::Parse));
}

#[test]
fn a_decoded_document_with_integers_in_range_encodes_to_itself() {
    for source in [
        "{\"b\":[1,-2,3.5,\"s\",null,true],\"a\":{\"c\":{}}}",
        "[9223372036854775807,-9223372036854775808,0.0,-0.0,1e300]",
        "{\"k\":1,\"k\":2}",
    ] {
        let document: serde_json::Value = serde_json::from_str(source).unwrap();
        let host = decode(source).unwrap();
        assert_eq!(to_value(&host), document);
        assert_eq!(encode(&host).unwrap(), serde_json::to_string(&document).unwrap());
    }
}

#[test]
fn a_decoded_integer_beyond_the_long_range_is_held_by_a_double() {
    let host = decode("[18446744073709551615]").unwrap();
    assert_eq!(
        host,
        HostObject::List(vec![HostObject::Double(serde_json::Number::from(u64::MAX))])
    );
}
