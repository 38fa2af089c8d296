use heygpt::error::ChatError;
use heygpt::message::Message;
use heygpt::wire::{
    decode_completion, decode_frame, read_choice_delta, read_choice_items, read_choice_message,
    read_deltas, read_messages, read_object_under, Completion, Delta, StreamFrame,
};
use serde_json::{Number, Value};

fn text(s: &str) -> Value {
    Value::String(s.to_string())
}

fn object(members: &[(&str, Value)]) -> Value {
    let mut map = serde_json::Map::new();
    for (key, value) in members {
        map.insert(key.to_string(), value.clone());
    }
    Value::Object(map)
}

fn message(role: &str, content: &str) -> Message {
    Message { role: role.to_string(), content: content.to_string() }
}

fn delta(role: Option<&str>, content: Option<&str>) -> Delta {
    Delta { role: role.map(|s| s.to_string()), content: content.map(|s| s.to_string()) }
}

#[test]
fn decode_frame_reads_role_and_content() {
    let frame = decode_frame(r#"{"choices":[{"delta":{"role":"assistant","content":"Hi"}}]}"#);
    assert_eq!(frame, Ok(StreamFrame { choices: vec![delta(Some("assistant"), Some("Hi"))] }));
}

#[test]
fn decode_frame_takes_missing_and_null_members_as_absent() {
    assert_eq!(
        decode_frame(r#"{"choices":[{"delta":{}}]}"#),
        Ok(StreamFrame { choices: vec![delta(None, None)] })
    );
    assert_eq!(
        decode_frame(r#"{"choices":[{"delta":{"role":null,"content":"x"}}]}"#),
        Ok(StreamFrame { choices: vec![delta(None, Some("x"))] })
    );
}

#[test]
fn decode_frame_ignores_members_it_does_not_know() {
    let text = r#"{"id":"c1","object":"chunk","created":1,"choices":[{"index":0,"delta":{"content":"a"},"finish_reason":null}]}"#;
    assert_eq!(decode_frame(text), Ok(StreamFrame { choices: vec![delta(None, Some("a"))] }));
}

#[test]
fn decode_frame_keeps_every_candidate_in_order() {
    let text = r#"{"choices":[{"delta":{"content":"a"}},{"delta":{"role":"r"}}]}"#;
    assert_eq!(
        decode_frame(text),
        Ok(StreamFrame { choices: vec![delta(None, Some("a")), delta(Some("r"), None)] })
    );
}

#[test]
fn decode_frame_accepts_no_candidates() {
    assert_eq!(decode_frame(r#"{"choices":[]}"#), Ok(StreamFrame { choices: vec![] }));
}

#[test]
fn decode_frame_decodes_escapes() {
    assert_eq!(
        decode_frame(r#"{"choices":[{"delta":{"content":"\nAé\"" }}]}"#),
        Ok(StreamFrame { choices: vec![delta(None, Some("\nA\u{e9}\""))] })
    );
}

#[test]
fn decode_frame_refuses_what_is_not_json() {
    match decode_frame("{not json") {
        Err(ChatError::InvalidJson(detail)) => assert!(!detail.is_empty()),
        other => panic!("unexpected: {:?}", other),
    }
    assert!(matches!(decode_frame(""), Err(ChatError::InvalidJson(_))));
    assert!(matches!(decode_frame("[DONE]"), Err(ChatError::InvalidJson(_))));
}

#[test]
fn decode_frame_reports_the_parser_message() {
    let expected = serde_json::from_str::<serde_json::Value>("{\"a\":").unwrap_err().to_string();
    assert_eq!(decode_frame("{\"a\":"), Err(ChatError::InvalidJson(expected)));
}

#[test]
fn decode_frame_refuses_other_shapes() {
    let cases = [
        "null",
        "5",
        "[]",
        "{}",
        r#"{"choices":null}"#,
        r#"{"choices":{}}"#,
        r#"{"choices":[5]}"#,
        r#"{"choices":[{}]}"#,
        r#"{"choices":[{"delta":null}]}"#,
        r#"{"choices":[{"delta":"x"}]}"#,
        r#"{"choices":[{"delta":{"role":5}}]}"#,
        r#"{"choices":[{"delta":{"content":["x"]}}]}"#,
        r#"{"choices":[{"delta":{"content":true}}]}"#,
        r#"{"choices":[{"delta":{"content":"a"}},{"delta":5}]}"#,
    ];
    for case in cases {
        assert_eq!(decode_frame(case), Err(ChatError::UnexpectedShape), "{}", case);
    }
}

#[test]
fn decode_completion_reads_the_messages() {
    let text = r#"{"choices":[{"message":{"role":"assistant","content":"\nHello"}}]}"#;
    assert_eq!(
        decode_completion(text),
        Ok(Completion {
            choices: vec![Message { role: "assistant".to_string(), content: "\nHello".to_string() }]
        })
    );
}

#[test]
fn decode_completion_wants_both_strings() {
    let cases = [
        r#"{"choices":[{"message":{"role":"assistant"}}]}"#,
        r#"{"choices":[{"message":{"content":"x"}}]}"#,
        r#"{"choices":[{"message":{"role":null,"content":"x"}}]}"#,
        r#"{"choices":[{"message":{"role":"a","content":5}}]}"#,
        r#"{"choices":[{"delta":{"role":"a","content":"x"}}]}"#,
        r#"{"choices":"x"}"#,
        r#"{"error":{"message":"bad key"}}"#,
    ];
    for case in cases {
        assert_eq!(decode_completion(case), Err(ChatError::UnexpectedShape), "{}", case);
    }
}

#[test]
fn decode_completion_refuses_what_is_not_json() {
    assert!(matches!(decode_completion("<html>"), Err(ChatError::InvalidJson(_))));
}

#[test]
fn decode_completion_accepts_no_candidates() {
    assert_eq!(decode_completion(r#"{"choices":[]}"#), Ok(Completion { choices: vec![] }));
}

#[test]
fn read_choice_items_gives_the_array_under_choices() {
    let items = vec![text("a"), Value::Null];
    let document = object(&[("choices", Value::Array(items.clone()))]);
    assert_eq!(read_choice_items(&document), Some(&items));
    assert_eq!(read_choice_items(&object(&[("choices", Value::Array(vec![]))])), Some(&vec![]));
    assert_eq!(read_choice_items(&object(&[])), None);
    assert_eq!(read_choice_items(&object(&[("choices", Value::Null)])), None);
    assert_eq!(read_choice_items(&object(&[("choices", object(&[]))])), None);
    assert_eq!(read_choice_items(&Value::Array(items)), None);
    assert_eq!(read_choice_items(&Value::Null), None);
}

#[test]
fn read_object_under_gives_objects_only() {
    let inner = object(&[("x", text("y"))]);
    let outer = object(&[("delta", inner.clone()), ("n", Value::Number(Number::from(1)))]);
    assert_eq!(read_object_under(&outer, "delta"), Some(&inner));
    assert_eq!(read_object_under(&outer, "n"), None);
    assert_eq!(read_object_under(&outer, "missing"), None);
    assert_eq!(read_object_under(&text("delta"), "delta"), None);
    assert_eq!(read_object_under(&Value::Array(vec![inner]), "delta"), None);
}

#[test]
fn read_choice_delta_follows_the_shape() {
    let choice = object(&[("delta", object(&[("role", text("assistant")), ("content", text("Hi"))]))]);
    assert_eq!(read_choice_delta(&choice), Some(delta(Some("assistant"), Some("Hi"))));
    let choice = object(&[("delta", object(&[("role", Value::Null)])), ("index", Value::Number(Number::from(0)))]);
    assert_eq!(read_choice_delta(&choice), Some(delta(None, None)));
    let choice = object(&[("delta", object(&[("content", Value::Bool(true))]))]);
    assert_eq!(read_choice_delta(&choice), None);
    let choice = object(&[("delta", object(&[("role", Value::Number(Number::from(3)))]))]);
    assert_eq!(read_choice_delta(&choice), None);
    assert_eq!(read_choice_delta(&object(&[("delta", text("x"))])), None);
    assert_eq!(read_choice_delta(&object(&[("message", object(&[]))])), None);
    assert_eq!(read_choice_delta(&Value::Null), None);
}

#[test]
fn read_choice_message_wants_both_strings() {
    let choice = object(&[("message", object(&[("role", text("assistant")), ("content", text("\nHi"))]))]);
    assert_eq!(read_choice_message(&choice), Some(message("assistant", "\nHi")));
    let choice = object(&[("message", object(&[("role", text("assistant"))]))]);
    assert_eq!(read_choice_message(&choice), None);
    let choice = object(&[("message", object(&[("role", text("a")), ("content", Value::Null)]))]);
    assert_eq!(read_choice_message(&choice), None);
    assert_eq!(read_choice_message(&object(&[("message", Value::Array(vec![]))])), None);
    assert_eq!(read_choice_message(&text("message")), None);
}

#[test]
fn read_deltas_wants_every_candidate_well_shaped() {
    let good = object(&[("delta", object(&[("content", text("a"))]))]);
    let other = object(&[("delta", object(&[("role", text("r"))]))]);
    let bad = object(&[("delta", Value::Null)]);
    let document = object(&[("choices", Value::Array(vec![good.clone(), other]))]);
    assert_eq!(read_deltas(&document), Some(vec![delta(None, Some("a")), delta(Some("r"), None)]));
    let document = object(&[("choices", Value::Array(vec![good.clone(), bad.clone()]))]);
    assert_eq!(read_deltas(&document), None);
    let document = object(&[("choices", Value::Array(vec![bad, good]))]);
    assert_eq!(read_deltas(&document), None);
    assert_eq!(read_deltas(&object(&[("choices", Value::Array(vec![]))])), Some(vec![]));
    assert_eq!(read_deltas(&object(&[("choice", Value::Array(vec![]))])), None);
    assert_eq!(read_deltas(&Value::Array(vec![])), None);
}

#[test]
fn read_messages_wants_every_candidate_well_shaped() {
    let good = object(&[("message", object(&[("role", text("a")), ("content", text("one"))]))]);
    let bad = object(&[("message", object(&[("role", text("a"))]))]);
    let document = object(&[("choices", Value::Array(vec![good.clone(), good.clone()]))]);
    assert_eq!(read_messages(&document), Some(vec![message("a", "one"), message("a", "one")]));
    let document = object(&[("choices", Value::Array(vec![good, bad]))]);
    assert_eq!(read_messages(&document), None);
    assert_eq!(read_messages(&object(&[("choices", Value::Array(vec![]))])), Some(vec![]));
    assert_eq!(read_messages(&Value::Bool(false)), None);
}

#[test]
fn readers_agree_with_the_parser_on_duplicate_keys() {
    let document: Value = serde_json::from_str(r#"{"choices":[{"delta":{"content":"a","content":"b"}}]}"#).unwrap();
    assert_eq!(read_deltas(&document), Some(vec![delta(None, Some("b"))]));
}
