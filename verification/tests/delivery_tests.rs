use line_messaging::batch::Messages;
use line_messaging::delivery::{
    DeliveryError, GetContentResponse, GetNarrowcastMessageStatusRequest,
    GetNarrowcastMessageStatusResponse, Phase, SendBroadcastMessageRequest,
    SendBroadcastMessageResponse, SendMulticastMessageRequest, SendNarrowcastMessageRequest,
    SendPushMessageRequest, SendReplyMessageRequest, SendReplyMessageResponse,
};
use line_messaging::filter::{Demographic, Filter, Limit, Recipient};
use line_messaging::json::JsonValue;
use line_messaging::message::Message;

fn hello_batch() -> Messages {
    let mut batch = Messages::new();
    batch
        .add(Message::new_text_message("hello".to_string(), None, None))
        .unwrap();
    batch
}

#[test]
fn reply_request_encodes_expected_payload() {
    let req = SendReplyMessageRequest {
        reply_token: "tok".to_string(),
        messages: hello_batch(),
        notification_disabled: None,
    };
    assert_eq!(
        req.encode().unwrap(),
        "{\"replyToken\":\"tok\",\"messages\":[{\"type\":\"text\",\"text\":\"hello\"}]}"
    );
}

#[test]
fn reply_success_yields_status_and_empty_system_message() {
    let req = SendReplyMessageRequest {
        reply_token: "tok".to_string(),
        messages: hello_batch(),
        notification_disabled: None,
    };
    let payload = req.encode().unwrap();
    assert!(payload.contains("hello"));
    let res = SendReplyMessageResponse::decode(
        200,
        "{}".to_string(),
        Some(JsonValue::Obj(Vec::new())),
    );
    assert_eq!(res.status, 200);
    assert_eq!(res.system_message, "");
    assert!(res.error.is_none());
}

#[test]
fn reply_failure_preserves_body_and_extracts_structured_error() {
    let body = JsonValue::Obj(vec![
        ("message".to_string(), JsonValue::Str("Invalid reply token".to_string())),
        (
            "details".to_string(),
            JsonValue::Arr(vec![JsonValue::Obj(vec![
                ("message".to_string(), JsonValue::Str("May not be empty".to_string())),
                ("property".to_string(), JsonValue::Str("messages[0].text".to_string())),
            ])]),
        ),
    ]);
    let raw = "{\"message\":\"Invalid reply token\"}".to_string();
    let res = SendReplyMessageResponse::decode(400, raw.clone(), Some(body));
    assert_eq!(res.status, 400);
    assert_eq!(res.system_message, raw);
    let err = res.error.expect("a parseable error body must be extracted");
    assert_eq!(err.message, "Invalid reply token");
    assert_eq!(err.details.len(), 1);
    assert_eq!(err.details[0].message.as_deref(), Some("May not be empty"));
    assert_eq!(err.details[0].property.as_deref(), Some("messages[0].text"));
}

#[test]
fn push_request_encodes_to_field() {
    let req = SendPushMessageRequest {
        to: "U123".to_string(),
        messages: hello_batch(),
        notification_disabled: Some(true),
    };
    assert_eq!(
        req.encode().unwrap(),
        "{\"to\":\"U123\",\"messages\":[{\"type\":\"text\",\"text\":\"hello\"}],\"notificationDisabled\":true}"
    );
}

#[test]
fn multicast_request_encodes_recipient_array() {
    let req = SendMulticastMessageRequest {
        to: vec!["U1".to_string(), "U2".to_string()],
        messages: hello_batch(),
        notification_disabled: Some(false),
    };
    assert_eq!(
        req.encode().unwrap(),
        "{\"to\":[\"U1\",\"U2\"],\"messages\":[{\"type\":\"text\",\"text\":\"hello\"}],\"notificationDisabled\":false}"
    );
}

#[test]
fn narrowcast_request_encodes_all_optional_parts() {
    let req = SendNarrowcastMessageRequest {
        messages: hello_batch(),
        recipient: Some(Recipient::audience(99)),
        filter: Some(Filter {
            demographic: Demographic::Gender { one_of: vec!["male".to_string()] },
        }),
        limit: Some(Limit { max: 50 }),
        notification_disabled: None,
    };
    assert_eq!(
        req.encode().unwrap(),
        "{\"messages\":[{\"type\":\"text\",\"text\":\"hello\"}],\"recipient\":{\"type\":\"audience\",\"audienceGroupId\":99},\"filter\":{\"demographic\":{\"type\":\"gender\",\"oneOf\":[\"male\"]}},\"limit\":{\"max\":50}}"
    );
}

#[test]
fn narrowcast_request_without_options_is_bare() {
    let req = SendNarrowcastMessageRequest {
        messages: hello_batch(),
        recipient: None,
        filter: None,
        limit: None,
        notification_disabled: None,
    };
    assert_eq!(
        req.encode().unwrap(),
        "{\"messages\":[{\"type\":\"text\",\"text\":\"hello\"}]}"
    );
}

#[test]
fn broadcast_request_encodes_messages_only() {
    let req = SendBroadcastMessageRequest { messages: hello_batch() };
    assert_eq!(
        req.encode().unwrap(),
        "{\"messages\":[{\"type\":\"text\",\"text\":\"hello\"}]}"
    );
}

#[test]
fn broadcast_success_without_request_id_is_missing_request_id() {
    let r = SendBroadcastMessageResponse::decode(200, None, String::new(), None);
    assert!(matches!(r, Err(DeliveryError::MissingRequestId)));
}

#[test]
fn broadcast_success_with_request_id_decodes() {
    let r = SendBroadcastMessageResponse::decode(
        200,
        Some("req-42".to_string()),
        String::new(),
        None,
    )
        .unwrap();
    assert_eq!(r.status, 200);
    assert_eq!(r.request_id.as_deref(), Some("req-42"));
    assert_eq!(r.system_message, "");
    assert!(r.error.is_none());
}

#[test]
fn broadcast_failure_keeps_body_without_request_id() {
    let r = SendBroadcastMessageResponse::decode(
        500,
        None,
        "oops".to_string(),
        None,
    )
        .unwrap();
    assert_eq!(r.status, 500);
    assert!(r.request_id.is_none());
    assert_eq!(r.system_message, "oops");
    assert!(r.error.is_none());
}

#[test]
fn narrowcast_status_query_is_verbatim() {
    let req = GetNarrowcastMessageStatusRequest { request_id: "abc123".to_string() };
    assert_eq!(req.encode_query(), "requestId=abc123");
}

#[test]
fn narrowcast_status_succeeded_decodes_with_counts() {
    let body = JsonValue::Obj(vec![
        ("phase".to_string(), JsonValue::Str("succeeded".to_string())),
        ("success_count".to_string(), JsonValue::UInt(10)),
        ("failure_count".to_string(), JsonValue::UInt(0)),
    ]);
    let raw = "{\"phase\":\"succeeded\",\"success_count\":10,\"failure_count\":0}".to_string();
    let res = GetNarrowcastMessageStatusResponse::decode(200, raw.clone(), Some(body)).unwrap();
    assert_eq!(res.status, 200);
    assert_eq!(res.system_message, raw);
    assert_eq!(res.phase, Phase::Succeeded);
    assert_eq!(res.success_count, Some(10));
    assert_eq!(res.failure_count, Some(0));
    assert_eq!(res.target_count, None);
    assert_eq!(res.failed_description, None);
    assert_eq!(res.error_code, None);
}

#[test]
fn narrowcast_status_waiting_decodes_without_counts() {
    let body = JsonValue::Obj(vec![(
        "phase".to_string(),
        JsonValue::Str("waiting".to_string()),
    )]);
    let res = GetNarrowcastMessageStatusResponse::decode(200, "{}".to_string(), Some(body))
        .unwrap();
    assert_eq!(res.phase, Phase::Waiting);
    assert_eq!(res.success_count, None);
}

#[test]
fn narrowcast_status_failed_carries_description() {
    let body = JsonValue::Obj(vec![
        ("phase".to_string(), JsonValue::Str("failed".to_string())),
        ("failed_description".to_string(), JsonValue::Str("audience too small".to_string())),
        ("error_code".to_string(), JsonValue::UInt(1)),
    ]);
    let res = GetNarrowcastMessageStatusResponse::decode(200, "{}".to_string(), Some(body))
        .unwrap();
    assert_eq!(res.phase, Phase::Failed);
    assert_eq!(res.failed_description.as_deref(), Some("audience too small"));
    assert_eq!(res.error_code, Some(1));
}

#[test]
fn narrowcast_status_with_unknown_phase_is_decode_error() {
    let body = JsonValue::Obj(vec![(
        "phase".to_string(),
        JsonValue::Str("exploded".to_string()),
    )]);
    let r = GetNarrowcastMessageStatusResponse::decode(200, "{}".to_string(), Some(body));
    assert!(matches!(r, Err(DeliveryError::DecodeError)));
}

#[test]
fn narrowcast_status_without_body_is_decode_error() {
    let r = GetNarrowcastMessageStatusResponse::decode(200, "{}".to_string(), None);
    assert!(matches!(r, Err(DeliveryError::DecodeError)));
}

#[test]
fn content_decode_returns_bytes_and_text() {
    let res = GetContentResponse::decode(200, b"hello bytes".to_vec());
    assert_eq!(res.status, 200);
    assert_eq!(res.content, b"hello bytes".to_vec());
    assert_eq!(res.system_message, "hello bytes");
}

#[test]
fn content_decode_of_invalid_utf8_falls_back_to_empty_text() {
    let res = GetContentResponse::decode(200, vec![0xff, 0xfe, 0x00]);
    assert_eq!(res.content, vec![0xff, 0xfe, 0x00]);
    assert_eq!(res.system_message, "");
}
