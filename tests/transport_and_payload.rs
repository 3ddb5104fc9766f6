use telegram_poll::{
    api_url, decode_reply, interpret_envelope, payload_json, reply_payloads, request_body,
    resp_json, update_list, ApiError, FieldValue, Poller, Response,
};

fn response(text: &str, chat_id: i64, reply: Option<i64>) -> Response {
    Response { text: text.to_string(), chat_id, reply_to_message_id: reply }
}

#[test]
fn reply_without_target_omits_member() {
    let v = resp_json(&response("hello", 42, None));
    let obj = v.as_object().unwrap();
    assert_eq!(obj.len(), 2);
    assert!(!obj.contains_key("reply_to_message_id"));
    assert_eq!(v["chat_id"].as_i64(), Some(42));
    assert_eq!(v["text"].as_str(), Some("hello"));
}

#[test]
fn reply_with_target_carries_it() {
    let v = resp_json(&response("yes", -7, Some(99)));
    let obj = v.as_object().unwrap();
    assert_eq!(obj.len(), 3);
    assert_eq!(v["reply_to_message_id"].as_i64(), Some(99));
    assert_eq!(v["chat_id"].as_i64(), Some(-7));
}

#[test]
fn reply_target_zero_is_sent_as_zero() {
    let v = resp_json(&response("z", 1, Some(0)));
    assert_eq!(v["reply_to_message_id"].as_i64(), Some(0));
}

#[test]
fn replies_keep_handler_order() {
    let rs = vec![response("r1", 1, None), response("r2", 2, Some(5)), response("r3", 3, None)];
    let payloads = reply_payloads(&rs);
    assert_eq!(payloads.len(), 3);
    let texts: Vec<String> = payloads
        .iter()
        .map(|p| payload_json(p)["text"].as_str().unwrap().to_string())
        .collect();
    assert_eq!(texts, vec!["r1", "r2", "r3"]);
    assert_eq!(payload_json(&payloads[1])["reply_to_message_id"].as_i64(), Some(5));
}

#[test]
fn fields_of_reply_in_order() {
    let fs = response("t", 9, Some(3)).fields();
    let keys: Vec<&str> = fs.iter().map(|f| f.key.as_str()).collect();
    assert_eq!(keys, vec!["chat_id", "text", "reply_to_message_id"]);
    assert!(matches!(fs[2].value, FieldValue::Int(3)));
}

#[test]
fn fetch_arguments_ask_from_next_offset() {
    let mut poller = Poller::new();
    poller.finish(Ok(10));
    let v = payload_json(&poller.fetch_args());
    assert_eq!(v["timeout"].as_i64(), Some(120));
    assert_eq!(v["offset"].as_i64(), Some(11));
    assert_eq!(v["allowed_updates"].as_array().map(|a| a.len()), Some(0));
    let body = request_body(&v).unwrap();
    assert_eq!(
        String::from_utf8(body).unwrap(),
        r#"{"allowed_updates":[],"offset":11,"timeout":120}"#
    );
}

#[test]
fn url_embeds_token_and_method() {
    assert_eq!(api_url("123:abc", "getUpdates"), "https://api.telegram.org/bot123:abc/getUpdates");
    assert_eq!(api_url("", "sendMessage"), "https://api.telegram.org/bot/sendMessage");
}

#[test]
fn ok_envelope_gives_result() {
    let r = decode_reply(br#"{"ok":true,"result":[1,2]}"#).unwrap();
    assert_eq!(r, serde_json::Value::from(vec![1, 2]));
}

#[test]
fn ok_envelope_without_result_gives_null() {
    let r = decode_reply(br#"{"ok":true}"#).unwrap();
    assert!(r.is_null());
}

#[test]
fn rejection_carries_error_code() {
    assert!(matches!(
        decode_reply(br#"{"ok":false,"error_code":403,"description":"Forbidden"}"#),
        Err(ApiError::Rejected(403))
    ));
}

#[test]
fn missing_error_code_is_malformed_envelope() {
    assert!(matches!(decode_reply(br#"{"ok":false}"#), Err(ApiError::MalformedEnvelope)));
}

#[test]
fn non_numeric_error_code_is_malformed_envelope() {
    assert!(matches!(
        decode_reply(br#"{"ok":false,"error_code":"x"}"#),
        Err(ApiError::MalformedEnvelope)
    ));
}

#[test]
fn missing_ok_is_not_success() {
    assert!(matches!(decode_reply(br#"{"error_code":500}"#), Err(ApiError::Rejected(500))));
}

#[test]
fn unparsable_body_is_transport_error() {
    assert!(matches!(decode_reply(b"not json"), Err(ApiError::Transport(_))));
}

#[test]
fn interpret_envelope_cases() {
    let v = serde_json::Value::from("r");
    assert_eq!(interpret_envelope(Some(true), Some(1), v.clone()).unwrap(), v);
    assert!(matches!(interpret_envelope(Some(false), Some(403), v.clone()), Err(ApiError::Rejected(403))));
    assert!(matches!(interpret_envelope(Some(false), None, v.clone()), Err(ApiError::MalformedEnvelope)));
    assert!(matches!(interpret_envelope(None, None, v), Err(ApiError::MalformedEnvelope)));
}

#[test]
fn update_list_reads_array() {
    let v: serde_json::Value = serde_json::from_str(r#"[{"a":1},{"b":2}]"#).unwrap();
    assert_eq!(update_list(v).unwrap().len(), 2);
    assert!(matches!(update_list(serde_json::Value::from("x")), Err(ApiError::Transport(_))));
}

#[test]
fn reply_payloads_match_exact_json() {
    let none = resp_json(&response("hi", 42, None));
    let expected: serde_json::Value = serde_json::from_str(r#"{"chat_id":42,"text":"hi"}"#).unwrap();
    assert_eq!(none, expected);
    let zero = resp_json(&response("x", -5, Some(0)));
    let expected: serde_json::Value =
        serde_json::from_str(r#"{"chat_id":-5,"text":"x","reply_to_message_id":0}"#).unwrap();
    assert_eq!(zero, expected);
    assert_ne!(zero, resp_json(&response("x", -5, None)));
}

#[test]
fn request_body_is_json_text_of_arguments() {
    let v: serde_json::Value = serde_json::from_str(r#"{"chat_id":1,"text":"a\"b"}"#).unwrap();
    let body = request_body(&v).unwrap();
    assert_eq!(body, serde_json::to_vec(&v).unwrap());
    assert_eq!(String::from_utf8(body).unwrap(), r#"{"chat_id":1,"text":"a\"b"}"#);
}
