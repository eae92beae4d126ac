//! The JSON wire codec: serialization, parsing, and round trips.

use ds_api::json::num::str_to_u64;
use ds_api::json::num::u64_digits;
use ds_api::json::read::parse_json;
use ds_api::json::value::chars_to_string;
use ds_api::json::value::str_eq;
use ds_api::JsonValue;
use ds_api::Number;

fn obj(members: Vec<(&str, JsonValue)>) -> JsonValue {
    JsonValue::Obj(members.into_iter().map(|(k, v)| (k.to_string(), v)).collect())
}

fn s(t: &str) -> JsonValue {
    JsonValue::Str(t.to_string())
}

#[test]
fn serializes_compact_objects() {
    let j = obj(vec![
        ("a", JsonValue::Num(Number { text: "1".to_string() })),
        ("b", JsonValue::Arr(vec![JsonValue::Null, JsonValue::Bool(true)])),
        ("c", s("x")),
    ]);
    assert_eq!(j.to_text(), "{\"a\":1,\"b\":[null,true],\"c\":\"x\"}");
}

#[test]
fn escapes_strings() {
    let j = s("a\"b\\c\nd\te\u{1}");
    assert_eq!(j.to_text(), "\"a\\\"b\\\\c\\nd\\te\\u0001\"");
}

#[test]
fn parses_what_it_writes() {
    let j = obj(vec![
        ("text", s("line\nbreak \"quoted\" back\\slash")),
        ("nums", JsonValue::Arr(vec![
            JsonValue::Num(Number { text: "0".to_string() }),
            JsonValue::Num(Number { text: "-12.5e3".to_string() }),
        ])),
        ("flag", JsonValue::Bool(false)),
        ("nothing", JsonValue::Null),
        ("nested", obj(vec![("k", s("v"))])),
    ]);
    let text = j.to_text();
    let back = parse_json(&text).expect("the serialized text parses");
    assert_eq!(back, j);
}

#[test]
fn serializer_agrees_with_reference_parser() {
    let j = obj(vec![
        ("text", s("tab\t emoji \u{1F60A} quote \"")),
        ("n", JsonValue::Num(Number { text: "42".to_string() })),
        ("arr", JsonValue::Arr(vec![s("x"), JsonValue::Null])),
    ]);
    let text = j.to_text();
    let reference: serde_json::Value = serde_json::from_str(&text).expect("valid JSON");
    assert_eq!(reference["text"], "tab\t emoji \u{1F60A} quote \"");
    assert_eq!(reference["n"], 42);
    assert_eq!(reference["arr"][0], "x");
}

#[test]
fn parses_whitespace_and_escapes() {
    let text = " { \"a\" : [ 1 , \"\\u0041\\n\" ] , \"b\" : null } ";
    let j = parse_json(text).expect("valid JSON");
    let expected = obj(vec![
        ("a", JsonValue::Arr(vec![
            JsonValue::Num(Number { text: "1".to_string() }),
            s("A\n"),
        ])),
        ("b", JsonValue::Null),
    ]);
    assert_eq!(j, expected);
}

#[test]
fn rejects_malformed_text() {
    assert!(parse_json("not json").is_none());
    assert!(parse_json("{\"a\":}").is_none());
    assert!(parse_json("[1,]").is_none());
    assert!(parse_json("\"unterminated").is_none());
    assert!(parse_json("{\"a\":1} trailing").is_none());
    assert!(parse_json("").is_none());
}

#[test]
fn member_lookup_takes_the_first() {
    let j = obj(vec![("k", s("first")), ("k", s("second"))]);
    let got = j.get("k").expect("the key is present");
    assert_eq!(*got, s("first"));
    assert!(j.get("missing").is_none());
}

#[test]
fn decimal_digits_round_trip() {
    let v = u64_digits(18446744073709551615);
    let t = chars_to_string(&v);
    assert_eq!(t, "18446744073709551615");
    assert_eq!(str_to_u64(&t), Some(18446744073709551615));
    assert_eq!(str_to_u64("18446744073709551616"), None);
    assert_eq!(str_to_u64("0"), Some(0));
    assert_eq!(str_to_u64(""), None);
    assert_eq!(str_to_u64("12a"), None);
}

#[test]
fn number_lexemes_are_validated() {
    assert!(Number::from_lexeme("0.5").is_some());
    assert!(Number::from_lexeme("-1e10").is_some());
    assert!(Number::from_lexeme("x5").is_none());
    assert!(Number::from_lexeme("").is_none());
    let n = Number::from_lexeme("100").unwrap();
    assert_eq!(n.as_u64(), Some(100));
}

#[test]
fn string_comparison_is_by_characters() {
    assert!(str_eq("abc", "abc"));
    assert!(!str_eq("abc", "abd"));
    assert!(!str_eq("abc", "ab"));
    assert!(str_eq("", ""));
}
