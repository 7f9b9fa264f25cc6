use botan_core::envelope::{decode_frame, ContentValue, DecodeError};
use botan_core::json::{parse_top, JsonField, JsonTop};

fn obj_field<'a>(o: &'a botan_core::json::JsonObj, key: &[u8]) -> Option<&'a JsonField> {
    botan_core::json::obj_get(o, key)
}

#[test]
fn decodes_object_content() {
    let frame = br#"{"type":"friend-add","content":{"userId":"usr_1"}}"#;
    let env = decode_frame(frame).unwrap();
    assert_eq!(env.event_type, b"friend-add".to_vec());
    match env.content {
        ContentValue::Obj(o) => {
            match obj_field(&o, b"userId") {
                Some(JsonField::Str(v)) => assert_eq!(v, &b"usr_1".to_vec()),
                other => panic!("unexpected field: {:?}", other),
            }
        }
        ContentValue::Other => panic!("expected object content"),
    }
}

#[test]
fn decodes_string_encoded_content() {
    let frame = br#"{"type":"friend-update","content":"{\"userId\":\"usr_9\"}"}"#;
    let env = decode_frame(frame).unwrap();
    assert_eq!(env.event_type, b"friend-update".to_vec());
    match env.content {
        ContentValue::Obj(o) => {
            match obj_field(&o, b"userId") {
                Some(JsonField::Str(v)) => assert_eq!(v, &b"usr_9".to_vec()),
                other => panic!("unexpected field: {:?}", other),
            }
        }
        ContentValue::Other => panic!("expected object content"),
    }
}

#[test]
fn malformed_frame_is_decode_failure() {
    let frame = br#"{"type": "friend-add", "#;
    assert_eq!(decode_frame(frame).unwrap_err(), DecodeError::MalformedFrame);
}

#[test]
fn malformed_content_string_is_decode_failure() {
    let frame = br#"{"type":"friend-add","content":"{not json"}"#;
    assert_eq!(decode_frame(frame).unwrap_err(), DecodeError::MalformedContent);
}

#[test]
fn missing_type_becomes_unknown() {
    let frame = br#"{"content":{"a":1}}"#;
    let env = decode_frame(frame).unwrap();
    assert_eq!(env.event_type, b"unknown".to_vec());
}

#[test]
fn non_string_type_becomes_unknown() {
    let frame = br#"{"type":7,"content":{}}"#;
    let env = decode_frame(frame).unwrap();
    assert_eq!(env.event_type, b"unknown".to_vec());
}

#[test]
fn non_object_frame_is_unknown_with_no_content() {
    let frame = br#"42"#;
    let env = decode_frame(frame).unwrap();
    assert_eq!(env.event_type, b"unknown".to_vec());
    assert!(matches!(env.content, ContentValue::Other));
}

#[test]
fn missing_content_is_other() {
    let frame = br#"{"type":"friend-add"}"#;
    let env = decode_frame(frame).unwrap();
    assert_eq!(env.event_type, b"friend-add".to_vec());
    assert!(matches!(env.content, ContentValue::Other));
}

#[test]
fn string_content_holding_scalar_is_other() {
    let frame = br#"{"type":"friend-add","content":"\"just text\""}"#;
    let env = decode_frame(frame).unwrap();
    assert!(matches!(env.content, ContentValue::Other));
}

#[test]
fn duplicate_key_takes_later_occurrence() {
    let frame = br#"{"type":"first","type":"second","content":{}}"#;
    let env = decode_frame(frame).unwrap();
    assert_eq!(env.event_type, b"second".to_vec());
}

#[test]
fn parses_escapes_in_strings() {
    let text = br#"{"name":"a\n\t\"\\\u0041\u00e9\u20ac\ud83d\ude00b"}"#;
    match parse_top(text) {
        Some(JsonTop::Obj(o)) => match obj_field(&o, b"name") {
            Some(JsonField::Str(v)) => {
                assert_eq!(v, &"a\n\t\"\\A\u{e9}\u{20ac}\u{1f600}b".as_bytes().to_vec());
            }
            other => panic!("unexpected field: {:?}", other),
        },
        other => panic!("unexpected parse: {:?}", other),
    }
}

#[test]
fn rejects_lone_surrogate() {
    assert!(parse_top(br#"{"name":"\ud83d"}"#).is_none());
}

#[test]
fn rejects_raw_control_character() {
    assert!(parse_top(b"{\"name\":\"a\x01b\"}").is_none());
}

#[test]
fn parses_numbers_and_literals() {
    let text = br#"{"a":-12.5e3,"b":true,"c":false,"d":null,"e":0}"#;
    match parse_top(text) {
        Some(JsonTop::Obj(o)) => {
            assert!(matches!(obj_field(&o, b"a"), Some(JsonField::Num(_))));
            assert!(matches!(obj_field(&o, b"b"), Some(JsonField::Bool(true))));
            assert!(matches!(obj_field(&o, b"c"), Some(JsonField::Bool(false))));
            assert!(matches!(obj_field(&o, b"d"), Some(JsonField::Null)));
            match obj_field(&o, b"e") {
                Some(JsonField::Num(v)) => assert_eq!(v, &b"0".to_vec()),
                other => panic!("unexpected field: {:?}", other),
            }
        }
        other => panic!("unexpected parse: {:?}", other),
    }
}

#[test]
fn rejects_number_with_leading_zero_digits() {
    assert!(parse_top(br#"{"a":01}"#).is_none());
}

#[test]
fn rejects_trailing_comma() {
    assert!(parse_top(br#"{"a":1,}"#).is_none());
    assert!(parse_top(br#"[1,]"#).is_none());
}

#[test]
fn rejects_trailing_garbage() {
    assert!(parse_top(br#"{} x"#).is_none());
}

#[test]
fn keeps_nested_composites_raw() {
    let text = br#"{"a":[1,{"b":[]}], "c": {"d": 2}}"#;
    match parse_top(text) {
        Some(JsonTop::Obj(o)) => {
            match obj_field(&o, b"a") {
                Some(JsonField::Composite(raw)) => assert_eq!(raw, &br#"[1,{"b":[]}]"#.to_vec()),
                other => panic!("unexpected field: {:?}", other),
            }
            match obj_field(&o, b"c") {
                Some(JsonField::Composite(raw)) => assert_eq!(raw, &br#"{"d": 2}"#.to_vec()),
                other => panic!("unexpected field: {:?}", other),
            }
        }
        other => panic!("unexpected parse: {:?}", other),
    }
}

#[test]
fn accepts_whitespace_everywhere() {
    let text = b" \t\r\n{ \"a\" : \"b\" , \"c\" : [ ] } \n";
    assert!(parse_top(text).is_some());
}

#[test]
fn rejects_overdeep_nesting() {
    let mut text: Vec<u8> = Vec::new();
    for _ in 0..200 {
        text.push(b'[');
    }
    for _ in 0..200 {
        text.push(b']');
    }
    assert!(parse_top(&text).is_none());
}

#[test]
fn accepts_moderate_nesting() {
    let mut text: Vec<u8> = Vec::new();
    for _ in 0..50 {
        text.push(b'[');
    }
    for _ in 0..50 {
        text.push(b']');
    }
    assert!(parse_top(&text).is_some());
}

#[test]
fn parse_str_list_reads_string_arrays() {
    let vs = botan_core::json::parse_str_list(br#"["emailOtp","totp"]"#).unwrap();
    assert_eq!(vs, vec![b"emailOtp".to_vec(), b"totp".to_vec()]);
    assert_eq!(botan_core::json::parse_str_list(b"[]").unwrap(), Vec::<Vec<u8>>::new());
    assert!(botan_core::json::parse_str_list(br#"[1]"#).is_none());
    assert!(botan_core::json::parse_str_list(br#"{"a":1}"#).is_none());
}

#[test]
fn parse_u16_handles_bounds() {
    assert_eq!(botan_core::json::parse_u16(b"0"), Some(0));
    assert_eq!(botan_core::json::parse_u16(b"65535"), Some(65535));
    assert_eq!(botan_core::json::parse_u16(b"65536"), None);
    assert_eq!(botan_core::json::parse_u16(b""), None);
    assert_eq!(botan_core::json::parse_u16(b"12a"), None);
    assert_eq!(botan_core::json::parse_u16(b"401"), Some(401));
}
