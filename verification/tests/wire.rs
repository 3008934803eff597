use request_plane::context::Context;
use request_plane::error::{DispatchError, PipelineError};
use request_plane::string_map::StringMap;
use request_plane::wire::{
    build_request_envelope, control_message, serialize_control_message, ConnectionInfo,
    RequestControlMessage, RequestType, ResponseType, CONTROL_MESSAGE_MAX_BYTES,
};
use serde_json::Value;

fn base_control_message(metadata: StringMap) -> RequestControlMessage {
    RequestControlMessage {
        id: "request-123".to_string(),
        request_type: RequestType::SingleIn,
        response_type: ResponseType::ManyOut,
        connection_info: ConnectionInfo {
            transport: "tcp".to_string(),
            info: "{}".to_string(),
        },
        metadata,
        frontend_send_ts_ns: None,
        request_stream_connection_info: None,
    }
}

fn connection_json(info: ConnectionInfo) -> Value {
    let mut object = serde_json::Map::new();
    object.insert("transport".to_string(), Value::String(info.transport));
    object.insert("info".to_string(), Value::String(info.info));
    Value::Object(object)
}

fn to_vec(message: RequestControlMessage) -> Result<Vec<u8>, serde_json::Error> {
    let mut metadata = serde_json::Map::new();
    for (key, value) in message.metadata.into_pairs() {
        metadata.insert(key, Value::String(value));
    }
    let mut object = serde_json::Map::new();
    object.insert("id".to_string(), Value::String(message.id));
    object.insert(
        "request_type".to_string(),
        Value::String(format!("{:?}", message.request_type)),
    );
    object.insert(
        "response_type".to_string(),
        Value::String(format!("{:?}", message.response_type)),
    );
    object.insert(
        "connection_info".to_string(),
        connection_json(message.connection_info),
    );
    object.insert("metadata".to_string(), Value::Object(metadata));
    object.insert(
        "frontend_send_ts_ns".to_string(),
        match message.frontend_send_ts_ns {
            Some(ts) => Value::from(ts),
            None => Value::Null,
        },
    );
    object.insert(
        "request_stream_connection_info".to_string(),
        match message.request_stream_connection_info {
            Some(info) => connection_json(info),
            None => Value::Null,
        },
    );
    serde_json::to_vec(&Value::Object(object))
}

fn error_text(error: DispatchError<serde_json::Error>) -> String {
    match error {
        DispatchError::Pipeline(PipelineError::Generic(text)) => text,
        DispatchError::Dynamo(error) => error.message,
        DispatchError::Outside(error) => error.to_string(),
    }
}

#[test]
fn serialize_control_message_succeeds_under_limit() {
    let mut metadata = StringMap::new();
    metadata.insert("x-tiny-blob".to_string(), "alpha".to_string());

    let ctrl = serialize_control_message(to_vec(base_control_message(metadata)))
        .expect("control message should serialize under the limit");
    assert!(ctrl.len() <= CONTROL_MESSAGE_MAX_BYTES);
    assert_eq!(
        serde_json::from_slice::<Value>(&ctrl).unwrap()["metadata"]["x-tiny-blob"],
        "alpha"
    );
}

#[test]
fn serialize_control_message_errors_over_limit() {
    let mut metadata = StringMap::new();
    metadata.insert(
        "x-large-blob".to_string(),
        "x".repeat(CONTROL_MESSAGE_MAX_BYTES),
    );

    let err = error_text(
        serialize_control_message(to_vec(base_control_message(metadata)))
            .expect_err("oversized control message should fail"),
    );
    assert!(err.contains("request control message too large"));
    assert!(err.contains(&CONTROL_MESSAGE_MAX_BYTES.to_string()));
}

#[test]
fn control_message_limit_is_inclusive() {
    let at_limit = vec![b'x'; 131072];
    let ctrl = serialize_control_message::<String>(Ok(at_limit.clone())).unwrap();
    assert_eq!(ctrl, at_limit);

    let over = serialize_control_message::<String>(Ok(vec![b'x'; 131073]));
    match over {
        Err(DispatchError::Pipeline(PipelineError::Generic(text))) => assert_eq!(
            text,
            "request control message too large: 131073 bytes exceeds limit 131072"
        ),
        other => panic!("{other:?}"),
    }
}

#[test]
fn serializer_error_passes_through() {
    match serialize_control_message(Err("no such field")) {
        Err(DispatchError::Outside(error)) => assert_eq!(error, "no such field"),
        other => panic!("{other:?}"),
    }
}

#[test]
fn control_message_streams_input_iff_there_is_a_connection_for_it() {
    let metadata = StringMap::from_pairs(vec![
        ("k".to_string(), "1".to_string()),
        ("k".to_string(), "2".to_string()),
    ]);
    let context = Context::new((), "req-1".to_string(), metadata);
    let recv = ConnectionInfo {
        transport: "tcp".to_string(),
        info: "recv".to_string(),
    };
    let unary = control_message(&context, recv, None);
    assert_eq!(unary.id, "req-1");
    assert_eq!(unary.request_type, RequestType::SingleIn);
    assert_eq!(unary.response_type, ResponseType::ManyOut);
    assert_eq!(unary.connection_info.info, "recv");
    assert_eq!(unary.metadata.get("k").unwrap(), "2");
    assert!(unary.frontend_send_ts_ns.is_none());
    assert!(unary.request_stream_connection_info.is_none());

    let recv = ConnectionInfo {
        transport: "tcp".to_string(),
        info: "recv".to_string(),
    };
    let send = ConnectionInfo {
        transport: "tcp".to_string(),
        info: "send".to_string(),
    };
    let streaming = control_message(&context, recv, Some(send));
    assert_eq!(streaming.request_type, RequestType::ManyIn);
    assert_eq!(
        streaming.request_stream_connection_info.unwrap().info,
        "send"
    );
}

#[test]
fn envelope_holds_header_and_payload() {
    let bare = build_request_envelope(vec![1, 2, 3], None);
    assert_eq!(bare.message.header.as_ref(), &[1u8, 2, 3][..]);
    assert!(bare.message.data.is_none());
    assert_eq!(bare.span_label, "transport.tcp.send");

    let full = build_request_envelope(vec![1, 2, 3], Some(vec![4, 5]));
    assert_eq!(full.message.header.as_ref(), &[1u8, 2, 3][..]);
    assert_eq!(full.message.data.unwrap().as_ref(), &[4u8, 5][..]);
    assert_eq!(full.span_label, "transport.tcp.send");
}
