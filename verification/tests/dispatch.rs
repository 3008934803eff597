use request_plane::context::{Context, EngineContext};
use request_plane::dispatch::{
    resolve_subjects, Dispatch, DispatchEvent, Effect, Handshake, Registration,
};
use request_plane::error::{DispatchError, ErrorType, PipelineError};
use request_plane::guards::Cancellation;
use request_plane::instance::{Instance, TransportAddress};
use request_plane::response::finalize_response_stream;
use request_plane::string_map::StringMap;
use request_plane::wire::{ConnectionInfo, RequestType};

type Event = DispatchEvent<String>;
type Effects = Vec<Effect<String>>;

fn instance() -> Instance {
    Instance {
        endpoint: "generate".to_string(),
        instance_id: 7,
        transport: TransportAddress::new("10.0.0.7:9000".to_string()),
    }
}

fn half(name: &str) -> Registration {
    Registration {
        info: ConnectionInfo {
            transport: "tcp".to_string(),
            info: name.to_string(),
        },
        subject: Some(format!("{name}-subject")),
    }
}

fn start(request_type: RequestType, addressed: bool) -> (Dispatch, Effects) {
    let mut metadata = StringMap::new();
    metadata.insert("tenant".to_string(), "a".to_string());
    Dispatch::start(
        request_type,
        Context::new((), "req-9".to_string(), metadata),
        "10.0.0.7:9000".to_string(),
        if addressed { Some(instance()) } else { None },
    )
}

fn registered(request_type: RequestType) -> Event {
    DispatchEvent::Registered {
        send: if request_type == RequestType::ManyIn {
            Some(half("send"))
        } else {
            None
        },
        recv: Some(half("recv")),
    }
}

fn step(dispatch: &mut Dispatch, event: Event) -> Effects {
    assert!(dispatch.accepts(&event));
    dispatch.step(event)
}

fn plan(cancellations: &[Cancellation]) -> Vec<String> {
    cancellations
        .iter()
        .map(|c| match c {
            Cancellation::Recv(subject) => format!("recv {subject}"),
            Cancellation::Send(subject) => format!("send {subject}"),
        })
        .collect()
}

fn name(effect: &Effect<String>) -> String {
    match effect {
        Effect::IncrementInflight => "inc".to_string(),
        Effect::Register {
            request_stream,
            response_stream,
        } => format!("register {request_stream} {response_stream}"),
        Effect::Associate {
            recv_subject,
            send_subject,
            instance,
        } => format!(
            "associate {recv_subject} {send_subject:?} {}#{}",
            instance.endpoint, instance.instance_id
        ),
        Effect::CancelNow(c) => format!("cancel now {:?}", plan(c)),
        Effect::SerializeControl(message) => {
            format!("control {} {:?}", message.id, message.request_type)
        }
        Effect::SerializePayload => "payload".to_string(),
        Effect::Encode(message) => {
            format!("encode {:?} {:?}", &message.header[..], message.data.is_some())
        }
        Effect::ObserveQueueTime => "queue time".to_string(),
        Effect::Send {
            address,
            buffer,
            request_id,
            span_label,
        } => format!("send {address} {:?} {request_id} in {span_label}", &buffer[..]),
        Effect::ObserveSendTime => "send time".to_string(),
        Effect::AwaitRequestStream => "await request".to_string(),
        Effect::SpawnForwarder => "forward".to_string(),
        Effect::AwaitResponseStream { wait_label: None } => "await response".to_string(),
        Effect::AwaitResponseStream {
            wait_label: Some(label),
        } => format!("await response in {label}"),
        Effect::CancelDetached(c) => format!("cancel {:?}", plan(c)),
        Effect::DecrementInflight => "dec".to_string(),
        Effect::Fail(_) => "fail".to_string(),
        Effect::Deliver { inflight } => format!("deliver {}", inflight.decrements_on_drop()),
    }
}

fn names(effects: &Effects) -> Vec<String> {
    effects.iter().map(name).collect()
}

fn failure(effects: &Effects) -> (Option<ErrorType>, String) {
    match effects.last() {
        Some(Effect::Fail(DispatchError::Dynamo(error))) => {
            (error.error_type, error.message.clone())
        }
        Some(Effect::Fail(DispatchError::Pipeline(PipelineError::Generic(text)))) => {
            (None, text.clone())
        }
        Some(Effect::Fail(DispatchError::Outside(text))) => (None, text.clone()),
        _ => panic!("no failure in {:?}", names(effects)),
    }
}

/// A dispatch whose request has been sent.
fn sent(request_type: RequestType) -> Dispatch {
    let (mut d, _) = start(request_type, true);
    step(&mut d, registered(request_type));
    step(&mut d, DispatchEvent::Associated { live: true });
    step(&mut d, DispatchEvent::ControlSerialized(Ok(vec![1])));
    if request_type == RequestType::SingleIn {
        step(&mut d, DispatchEvent::PayloadSerialized(Ok(vec![2])));
    }
    step(
        &mut d,
        DispatchEvent::Encoded(Ok(bytes::Bytes::from_static(&[1, 2]))),
    );
    step(&mut d, DispatchEvent::Sent(Ok(())));
    d
}

#[test]
fn unary_dispatch_delivers() {
    let (mut d, effects) = start(RequestType::SingleIn, true);
    assert_eq!(names(&effects), ["inc", "register false true"]);
    let effects = step(&mut d, registered(RequestType::SingleIn));
    assert_eq!(names(&effects), ["associate recv-subject None generate#7"]);
    let effects = step(&mut d, DispatchEvent::Associated { live: true });
    assert_eq!(names(&effects), ["control req-9 SingleIn"]);
    let effects = step(&mut d, DispatchEvent::ControlSerialized(Ok(vec![1, 2])));
    assert_eq!(names(&effects), ["payload"]);
    let effects = step(&mut d, DispatchEvent::PayloadSerialized(Ok(vec![3])));
    assert_eq!(names(&effects), ["encode [1, 2] true"]);
    let buffer = bytes::Bytes::from_static(&[9, 9]);
    let effects = step(&mut d, DispatchEvent::Encoded(Ok(buffer)));
    assert_eq!(
        names(&effects),
        [
            "queue time",
            "send 10.0.0.7:9000 [9, 9] req-9 in transport.tcp.send"
        ]
    );
    let effects = step(&mut d, DispatchEvent::Sent(Ok(())));
    assert_eq!(
        names(&effects),
        ["send time", "await response in transport.tcp.wait_backend"]
    );
    let effects = step(&mut d, DispatchEvent::ResponseStream(Handshake::Ready));
    assert_eq!(names(&effects), ["deliver true"]);
    assert!(d.abandon::<String>().is_empty());
}

#[test]
fn bidirectional_dispatch_forwards_before_it_awaits_the_answer() {
    let (mut d, effects) = start(RequestType::ManyIn, true);
    assert_eq!(names(&effects), ["inc", "register true true"]);
    let effects = step(&mut d, registered(RequestType::ManyIn));
    assert_eq!(
        names(&effects),
        ["associate recv-subject Some(\"send-subject\") generate#7"]
    );
    let effects = step(&mut d, DispatchEvent::Associated { live: true });
    assert_eq!(names(&effects), ["control req-9 ManyIn"]);
    let effects = step(&mut d, DispatchEvent::ControlSerialized(Ok(vec![1, 2])));
    assert_eq!(names(&effects), ["encode [1, 2] false"]);
    let buffer = bytes::Bytes::from_static(&[9]);
    let effects = step(&mut d, DispatchEvent::Encoded(Ok(buffer)));
    assert_eq!(
        names(&effects),
        [
            "queue time",
            "send 10.0.0.7:9000 [9] req-9 in transport.tcp.send"
        ]
    );
    let effects = step(&mut d, DispatchEvent::Sent(Ok(())));
    assert_eq!(names(&effects), ["send time", "await request"]);
    let effects = step(&mut d, DispatchEvent::RequestStream(Handshake::Ready));
    assert_eq!(names(&effects), ["forward", "await response"]);
    let effects = step(&mut d, DispatchEvent::ResponseStream(Handshake::Ready));
    assert_eq!(names(&effects), ["deliver true"]);
}

#[test]
fn unaddressed_request_is_not_associated() {
    let (mut d, _) = start(RequestType::SingleIn, false);
    let effects = step(&mut d, registered(RequestType::SingleIn));
    assert_eq!(names(&effects), ["control req-9 SingleIn"]);
}

#[test]
fn registration_without_subject_is_not_associated() {
    let (mut d, _) = start(RequestType::SingleIn, true);
    let mut recv = half("recv");
    recv.subject = None;
    let effects = step(
        &mut d,
        DispatchEvent::Registered {
            send: None,
            recv: Some(recv),
        },
    );
    assert_eq!(names(&effects), ["control req-9 SingleIn"]);
    let effects = step(&mut d, DispatchEvent::ControlSerialized(Err("bad".to_string())));
    assert_eq!(names(&effects), ["cancel []", "dec", "fail"]);
}

#[test]
fn removed_instance_gets_nothing() {
    let (mut d, _) = start(RequestType::ManyIn, true);
    step(&mut d, registered(RequestType::ManyIn));
    let effects = step(&mut d, DispatchEvent::Associated { live: false });
    assert_eq!(
        names(&effects),
        ["cancel now [\"recv recv-subject\", \"send send-subject\"]"]
    );
    let effects = step(&mut d, DispatchEvent::Cancelled);
    assert_eq!(names(&effects), ["dec", "fail"]);
    assert_eq!(
        failure(&effects),
        (
            Some(ErrorType::Disconnected),
            "Worker removed before request could be sent (tombstoned instance)".to_string()
        )
    );
    assert!(d.abandon::<String>().is_empty());
}

#[test]
fn oversized_control_message_fails_the_dispatch() {
    let (mut d, _) = start(RequestType::SingleIn, true);
    step(&mut d, registered(RequestType::SingleIn));
    step(&mut d, DispatchEvent::Associated { live: true });
    let effects = step(
        &mut d,
        DispatchEvent::ControlSerialized(Ok(vec![0; 131073])),
    );
    assert_eq!(
        names(&effects),
        ["cancel [\"recv recv-subject\"]", "dec", "fail"]
    );
    assert_eq!(
        failure(&effects).1,
        "request control message too large: 131073 bytes exceeds limit 131072"
    );
}

#[test]
fn outside_errors_release_and_pass_through() {
    for at in 0..3 {
        let (mut d, _) = start(RequestType::SingleIn, true);
        step(&mut d, registered(RequestType::SingleIn));
        step(&mut d, DispatchEvent::Associated { live: true });
        step(&mut d, DispatchEvent::ControlSerialized(Ok(vec![1])));
        let effects = if at == 0 {
            step(&mut d, DispatchEvent::PayloadSerialized(Err("e0".to_string())))
        } else {
            step(&mut d, DispatchEvent::PayloadSerialized(Ok(vec![2])));
            if at == 1 {
                step(&mut d, DispatchEvent::Encoded(Err("e1".to_string())))
            } else {
                let buffer = bytes::Bytes::from_static(&[1]);
                step(&mut d, DispatchEvent::Encoded(Ok(buffer)));
                step(&mut d, DispatchEvent::Sent(Err("e2".to_string())))
            }
        };
        assert_eq!(
            names(&effects),
            ["cancel [\"recv recv-subject\"]", "dec", "fail"]
        );
        assert_eq!(failure(&effects).1, format!("e{at}"));
    }
}

#[test]
fn handshake_failures_are_classified() {
    let mut d = sent(RequestType::ManyIn);
    let effects = step(
        &mut d,
        DispatchEvent::RequestStream(Handshake::Refused("no".to_string())),
    );
    assert_eq!(
        names(&effects),
        [
            "cancel [\"recv recv-subject\", \"send send-subject\"]",
            "dec",
            "fail"
        ]
    );
    assert_eq!(
        failure(&effects),
        (
            Some(ErrorType::CannotConnect),
            "Worker dial-in failed for request stream: no".to_string()
        )
    );

    let mut d = sent(RequestType::ManyIn);
    let effects = step(&mut d, DispatchEvent::RequestStream(Handshake::Dropped));
    assert_eq!(
        failure(&effects),
        (
            Some(ErrorType::Disconnected),
            "Worker disconnected before request stream was established".to_string()
        )
    );

    let mut d = sent(RequestType::SingleIn);
    let effects = step(
        &mut d,
        DispatchEvent::ResponseStream(Handshake::Refused("no".to_string())),
    );
    assert_eq!(
        failure(&effects),
        (
            Some(ErrorType::CannotConnect),
            "Worker generate() failed before response stream: no".to_string()
        )
    );

    let mut d = sent(RequestType::SingleIn);
    let effects = step(&mut d, DispatchEvent::ResponseStream(Handshake::Dropped));
    assert_eq!(
        failure(&effects),
        (
            Some(ErrorType::Disconnected),
            "Worker disconnected before response stream was established".to_string()
        )
    );
}

#[test]
fn dropped_dispatch_gives_back_what_it_holds() {
    let (mut d, _) = start(RequestType::ManyIn, true);
    assert_eq!(names(&d.abandon()), ["dec"]);
    assert!(d.abandon::<String>().is_empty());

    let mut d = sent(RequestType::ManyIn);
    assert_eq!(
        names(&d.abandon()),
        [
            "cancel [\"recv recv-subject\", \"send send-subject\"]",
            "dec"
        ]
    );
    assert!(!d.accepts(&Event::ResponseStream(Handshake::Ready)));
}

#[test]
fn registration_of_another_shape_is_not_accepted() {
    let (d, _) = start(RequestType::SingleIn, true);
    assert!(!d.accepts(&registered(RequestType::ManyIn)));
    assert!(!d.accepts(&Event::Registered {
        send: None,
        recv: None
    }));
    assert!(!d.accepts(&Event::Sent(Ok(()))));
    let (d, _) = start(RequestType::ManyIn, true);
    assert!(!d.accepts(&registered(RequestType::SingleIn)));
    assert!(d.accepts(&registered(RequestType::ManyIn)));
}

#[test]
fn subjects_resolve_only_with_subject_and_instance() {
    let recv = Some("r".to_string());
    let send = Some("s".to_string());
    let ask = resolve_subjects(&recv, &send, &Some(instance())).unwrap();
    assert_eq!(ask.0, "r");
    assert_eq!(ask.1.as_deref(), Some("s"));
    assert_eq!(ask.2.endpoint, "generate");
    assert_eq!(ask.2.instance_id, 7);
    assert!(resolve_subjects(&None, &send, &Some(instance())).is_none());
    assert!(resolve_subjects(&recv, &send, &None).is_none());
}

/// Where the gauge stands after `effects`, having stood at `before`.
fn gauge(before: i64, effects: &Effects) -> i64 {
    effects.iter().fold(before, |gauge, effect| match effect {
        Effect::IncrementInflight => gauge + 1,
        Effect::DecrementInflight => gauge - 1,
        _ => gauge,
    })
}

#[test]
fn gauge_falls_once_when_the_delivered_stream_is_dropped() {
    for request_type in [RequestType::SingleIn, RequestType::ManyIn] {
        for reads in 0..3 {
            let mut d = sent(request_type);
            let mut level = gauge(4, &start(request_type, true).1);
            assert_eq!(level, 5);
            if request_type == RequestType::ManyIn {
                let effects = step(&mut d, DispatchEvent::RequestStream(Handshake::Ready));
                level = gauge(level, &effects);
            }
            let mut effects = step(&mut d, DispatchEvent::ResponseStream(Handshake::Ready));
            level = gauge(level, &effects);
            assert!(d.abandon::<String>().is_empty());
            let Some(Effect::Deliver { inflight }) = effects.pop() else {
                panic!("no delivery");
            };
            let context = EngineContext {
                id: "req-9".to_string(),
                controls: "controls",
            };
            let out = finalize_response_stream(vec![1, 2], context, inflight);
            assert_eq!(out.context().id, "req-9");
            assert_eq!(out.context().controls, "controls");
            let (mut stream, _) = out.into_parts();
            for _ in 0..reads {
                stream.inner_mut().pop();
            }
            assert_eq!(level, 5);
            assert!(stream.on_drop());
            assert!(!stream.on_drop());
        }
    }
}

#[test]
fn gauge_is_back_after_a_failure() {
    let mut d = sent(RequestType::SingleIn);
    let level = gauge(4, &start(RequestType::SingleIn, true).1);
    let effects = step(&mut d, DispatchEvent::ResponseStream(Handshake::Dropped));
    assert_eq!(gauge(level, &effects), 4);
    assert!(d.abandon::<String>().is_empty());
}
