use dioxus_utils::{escape_for_java_script_string, generate_uuid, JsonBodyBuilder, JsonValue};

#[test]
fn body_keys_sorted_independent_of_order() {
    let a = JsonBodyBuilder::new()
        .with_field("b", JsonValue::Number(2))
        .with_field("a", JsonValue::Number(1))
        .build();
    let b = JsonBodyBuilder::new()
        .with_field("a", JsonValue::Number(1))
        .with_field("b", JsonValue::Number(2))
        .build();
    assert_eq!(a, b);
    assert_eq!(a, b"{\"a\":1,\"b\":2}".to_vec());
}

#[test]
fn empty_body() {
    assert_eq!(JsonBodyBuilder::new().build(), b"{}".to_vec());
}

#[test]
fn last_write_wins() {
    let body = JsonBodyBuilder::new()
        .with_field("k", JsonValue::Number(1))
        .with_field("k", JsonValue::Text("v".to_string()))
        .build();
    assert_eq!(body, b"{\"k\":\"v\"}".to_vec());
}

#[test]
fn value_kinds_and_escaping() {
    let body = JsonBodyBuilder::new()
        .with_field("n", JsonValue::Null)
        .with_field("t", JsonValue::Bool(true))
        .with_field("f", JsonValue::Bool(false))
        .with_field("m", JsonValue::Number(-9223372036854775808))
        .with_field("z", JsonValue::Number(0))
        .with_field("s", JsonValue::Text("q\"b\\\n\u{1}é".to_string()))
        .build();
    let text = String::from_utf8(body).unwrap();
    assert_eq!(
        text,
        "{\"f\":false,\"m\":-9223372036854775808,\"n\":null,\"s\":\"q\\\"b\\\\\\n\\u0001é\",\"t\":true,\"z\":0}"
    );
}

#[test]
fn keys_order_by_code_point() {
    let body = JsonBodyBuilder::new()
        .with_field("ab", JsonValue::Number(1))
        .with_field("a", JsonValue::Number(2))
        .with_field("B", JsonValue::Number(3))
        .with_field("", JsonValue::Number(4))
        .build();
    assert_eq!(body, b"{\"\":4,\"B\":3,\"a\":2,\"ab\":1}".to_vec());
}

#[test]
fn script_escape() {
    assert_eq!(
        escape_for_java_script_string("a'b\"c\\d\ne\rf\tg"),
        "a\\'b\\\"c\\\\d\\ne\\rf\\tg"
    );
    assert_eq!(escape_for_java_script_string(""), "");
}

#[test]
fn uuid_shape() {
    let a = generate_uuid();
    let b = generate_uuid();
    assert_ne!(a, b);
    let chars: Vec<char> = a.chars().collect();
    assert_eq!(chars.len(), 36);
    for (i, c) in chars.iter().enumerate() {
        if i == 8 || i == 13 || i == 18 || i == 23 {
            assert_eq!(*c, '-');
        } else {
            assert!(c.is_ascii_hexdigit() && !c.is_ascii_uppercase());
        }
    }
    assert_eq!(chars[14], '4');
    assert!(matches!(chars[19], '8' | '9' | 'a' | 'b'));
}
