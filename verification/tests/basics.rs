//! Texts, identities, tables and JSON values.
use agentic_core::error::{
    config_error, invalid_upstream_search_call, invalid_upstream_withheld_function_call,
    ExecutorError, ToolError,
};
use agentic_core::ids::{call_output_id, fresh_uuid, uuid7, uuid7_str};
use agentic_core::json::{Json, JsonNumber};
use agentic_core::tables::{Keys, Table};
use agentic_core::text::{
    byte_len, decimal, hex, is_blank, join, stable_hash, starts_with, strip_prefix, take_chars,
    trim, trim_end_matches, trim_start,
};

#[test]
fn texts_are_measured_in_bytes_and_cut_in_characters() {
    assert_eq!(byte_len("héllo😀"), "héllo😀".len());
    assert_eq!(take_chars("héllo", 2), "hé");
    assert_eq!(trim(" \u{a0}\u{3000}a b\t\r\n"), "a b");
    assert_eq!(trim_start("\u{2028} a "), "a ");
    assert!(is_blank(" \u{85}\u{1680}"));
    assert!(!is_blank("\u{200b}"));
    assert_eq!(trim_end_matches("a//", '/'), "a");
    assert!(starts_with("abc", "ab"));
    assert_eq!(strip_prefix("abc", "ab").as_deref(), Some("c"));
    assert_eq!(strip_prefix("abc", "b"), None);
    assert_eq!(join(&vec!["a".to_owned(), "b".to_owned()], "; "), "a; b");
}

#[test]
fn whitespace_is_that_of_the_standard_library() {
    for code in 0..0x11_0000u32 {
        if let Some(c) = char::from_u32(code) {
            assert_eq!(agentic_core::text::whitespace(c), c.is_whitespace(), "{code:x}");
        }
    }
}

#[test]
fn hashes_and_numbers_have_their_known_forms() {
    assert_eq!(stable_hash(""), 0xcbf2_9ce4_8422_2325);
    assert_eq!(stable_hash("a"), 0xaf63_dc4c_8601_ec8c);
    assert_eq!(stable_hash("foobar"), 0x8594_4171_f739_67e8);
    assert_eq!(hex(0xbeef, 8), "0000beef");
    assert_eq!(hex(u64::MAX, 16), "ffffffffffffffff");
    assert_eq!(decimal(0), "0");
    assert_eq!(decimal(u64::MAX), u64::MAX.to_string());
}

#[test]
fn identities_hold_time_version_and_variant() {
    let random = vec![0xff; 10];
    assert_eq!(uuid7(0x0123_4567_89ab, &random), "01234567-89ab-7fff-bfff-ffffffffffff");
    assert_eq!(uuid7(0, &vec![0; 10]), "00000000-0000-7000-8000-000000000000");
    let id = uuid7_str("resp_");
    assert_eq!(id.len(), 5 + 36);
    assert!(id.starts_with("resp_"));
    assert_ne!(fresh_uuid(), fresh_uuid());
    assert_ne!(&fresh_uuid()[..13], "00000000-0000");
}

#[test]
fn output_ids_follow_their_calls() {
    assert_eq!(call_output_id("ws_", "fc_1", "call_2", "x"), "ws_1");
    assert_eq!(call_output_id("ws_", "other", "call_2", "x"), "ws_2");
    assert_eq!(call_output_id("ws_", "fc_", "call_", "x"), "ws_x");
}

#[test]
fn tables_keep_the_last_value_of_a_key() {
    let mut table: Table<String, String> = Table::new();
    table.insert("a".to_owned(), "1".to_owned());
    table.insert("a".to_owned(), "2".to_owned());
    table.insert("b".to_owned(), "3".to_owned());
    assert_eq!(table.len(), 2);
    assert_eq!(table.get(&"a".to_owned()).map(String::as_str), Some("2"));
    assert_eq!(table.remove(&"a".to_owned()).as_deref(), Some("2"));
    assert!(!table.contains_key(&"a".to_owned()));

    let mut keys: Keys<String> = Keys::new();
    assert!(keys.insert("a".to_owned()));
    assert!(!keys.insert("a".to_owned()));
    assert_eq!(keys.len(), 1);
    keys.remove(&"a".to_owned());
    assert!(!keys.contains(&"a".to_owned()));
}

#[test]
fn json_is_read_and_written() {
    let text = r#"{"b":[1,-2,2.5,1e300,true,null],"a":"x\n\"é"}"#;
    let value = Json::parse(text).unwrap();
    assert_eq!(value.get_str("a"), Some("x\n\"é"));
    assert_eq!(Json::parse(&value.to_text()).unwrap(), value);
    assert_eq!(value.to_text(), r#"{"a":"x\n\"é","b":[1,-2,2.5,1e+300,true,null]}"#);
    assert_eq!(Json::parse("{"), None);
    assert_eq!(Json::parse(""), None);
    assert_eq!(Json::parse("18446744073709551615"), Some(Json::Number(JsonNumber::from_u64(u64::MAX))));
    assert_eq!(JsonNumber::from_u64(7).as_u64(), Some(7));
    assert_eq!(JsonNumber::from_i64(-7).as_u64(), None);
    assert_eq!(JsonNumber::from_i64(i64::MIN).as_str(), "-9223372036854775808");
}

#[test]
fn the_order_of_fields_does_not_count() {
    let a = Json::parse(r#"{"a":1,"b":2}"#).unwrap();
    let b = Json::parse(r#"{"b":2,"a":1}"#).unwrap();
    assert_eq!(a, b);
    assert_eq!(a.to_text(), b.to_text());
    assert_ne!(a, Json::parse(r#"{"a":1}"#).unwrap());
}

#[test]
fn errors_say_what_they_are() {
    assert!(ToolError::Execution("no".to_owned()).message().contains("no"));
    assert!(config_error("bad").message().contains("bad"));
    let missing = ToolError::MissingOutput { call_id: "call_1".to_owned() };
    assert!(missing.message().contains("call_1"));
    assert!(ExecutorError::Tool(invalid_upstream_search_call()).is_invalid_upstream_tool_search());
    assert!(!ExecutorError::Tool(config_error("bad")).is_invalid_upstream_tool_search());
    assert!(!ExecutorError::StreamError("x".to_owned()).is_invalid_upstream_tool_search());
    assert_ne!(invalid_upstream_search_call(), invalid_upstream_withheld_function_call());
    assert!(ExecutorError::ParseError("p".to_owned()).message().contains('p'));
    assert!(ExecutorError::JsonError("j".to_owned()).message().contains('j'));
}
