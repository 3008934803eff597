use request_plane::context::EngineContext;
use request_plane::error::ErrorType;
use request_plane::forwarder::{ForwardAction, ForwardEvent, Forwarder};
use request_plane::guards::{cancel_both, CancelGuard, Cancellation, InflightGuard};
use request_plane::request_stream::{debug_text, RequestStream};
use request_plane::response::{finalize_response_stream, NetworkStreamWrapper, ResponseFilter};

fn frame(data: Option<u32>, complete_final: bool) -> Result<NetworkStreamWrapper<u32>, String> {
    Ok(NetworkStreamWrapper {
        data,
        complete_final,
    })
}

#[test]
fn data_arrives_in_order_and_the_stream_ends_clean() {
    let mut filter = ResponseFilter::new();
    let first = filter.begin_frame();
    assert!(first.observe_first_response);
    assert_eq!(first.stage_label, Some("transport_roundtrip"));
    assert!(first.late.is_none());
    assert_eq!(filter.finish_frame(frame(Some(1), false)).unwrap().unwrap(), 1);
    let second = filter.begin_frame();
    assert!(!second.observe_first_response);
    assert!(second.stage_label.is_none());
    assert_eq!(filter.finish_frame(frame(Some(2), true)).unwrap().unwrap(), 2);
    assert!(filter.close(false).is_none());
}

#[test]
fn first_frame_alone_is_observed_whatever_is_in_it() {
    let firsts = [
        frame(Some(1), false),
        frame(None, false),
        frame(None, true),
        Err("bad".to_string()),
    ];
    for first in firsts {
        let mut filter = ResponseFilter::new();
        let arrival = filter.begin_frame();
        let mut responses = u32::from(arrival.observe_first_response);
        let mut labels: Vec<&str> = arrival.stage_label.into_iter().collect();
        let _ = filter.finish_frame(first);
        for _ in 0..3 {
            let arrival = filter.begin_frame();
            responses += u32::from(arrival.observe_first_response);
            labels.extend(arrival.stage_label);
            if arrival.late.is_none() {
                let _ = filter.finish_frame(frame(Some(2), true));
            }
        }
        assert_eq!(responses, 1);
        assert_eq!(labels, ["transport_roundtrip"]);
    }
}

#[test]
fn empty_last_frame_yields_nothing() {
    let mut filter = ResponseFilter::new();
    filter.begin_frame();
    assert!(filter.finish_frame(frame(None, true)).is_none());
    assert!(filter.close(false).is_none());
}

#[test]
fn empty_frame_in_between_is_an_error() {
    let mut filter = ResponseFilter::new();
    filter.begin_frame();
    let error = filter.finish_frame(frame(None, false)).unwrap().unwrap_err();
    assert_eq!(error.message, "Empty response received - this should never happen");
    assert!(error.error_type.is_none());
}

#[test]
fn undecodable_frame_is_an_error_and_not_the_last() {
    let mut filter = ResponseFilter::new();
    filter.begin_frame();
    let error = filter
        .finish_frame::<u32>(Err("expected value at line 1 column 1".to_string()))
        .unwrap()
        .unwrap_err();
    assert_eq!(error.message, "expected value at line 1 column 1");
    assert!(error.error_type.is_none());
    assert!(filter.close(false).is_some());
}

#[test]
fn frame_after_the_last_is_an_error() {
    let mut filter = ResponseFilter::new();
    filter.begin_frame();
    filter.finish_frame(frame(Some(1), true));
    for _ in 0..2 {
        let error = filter.begin_frame().late.unwrap();
        assert_eq!(
            error.message,
            "Response received after generation ended - this should never happen"
        );
        assert!(error.error_type.is_none());
    }
    assert!(filter.close(false).is_none());
}

#[test]
fn cut_off_stream_is_reported_unless_stopped() {
    let mut filter = ResponseFilter::new();
    filter.begin_frame();
    filter.finish_frame(frame(Some(1), false));
    let error = filter.close(false).unwrap();
    assert_eq!(error.error_type, Some(ErrorType::Disconnected));
    assert_eq!(error.message, "Stream ended before generation completed");
    assert!(filter.close(true).is_none());
}

#[test]
fn frames_are_forwarded_in_order() {
    let mut forwarder = Forwarder::new();
    let mut sent = Vec::new();
    for frame in [vec![1u8, 2], vec![3]] {
        assert!(matches!(forwarder.step(ForwardEvent::Item), ForwardAction::Serialize));
        match forwarder.step(ForwardEvent::Serialized(Some(frame))) {
            ForwardAction::Send(bytes) => sent.push(bytes.to_vec()),
            other => panic!("{other:?}"),
        }
        assert!(matches!(forwarder.step(ForwardEvent::Sent(true)), ForwardAction::Poll));
    }
    assert_eq!(sent, vec![vec![1u8, 2], vec![3]]);
    assert!(matches!(forwarder.step(ForwardEvent::EndOfInput), ForwardAction::Exit));
    assert!(!forwarder.accepts(&ForwardEvent::Item));
}

#[test]
fn unserializable_item_kills_the_request() {
    let mut forwarder = Forwarder::new();
    forwarder.step(ForwardEvent::Item);
    assert!(!forwarder.accepts(&ForwardEvent::Killed));
    assert!(matches!(
        forwarder.step(ForwardEvent::Serialized(None)),
        ForwardAction::KillAndExit
    ));
}

#[test]
fn forwarder_exits_on_kill_stop_and_dropped_receiver() {
    assert!(matches!(Forwarder::new().step(ForwardEvent::Killed), ForwardAction::Exit));
    assert!(matches!(Forwarder::new().step(ForwardEvent::Stopped), ForwardAction::Exit));
    let mut forwarder = Forwarder::new();
    forwarder.step(ForwardEvent::Item);
    forwarder.step(ForwardEvent::Serialized(Some(vec![1])));
    assert!(matches!(forwarder.step(ForwardEvent::Sent(false)), ForwardAction::Exit));
}

#[test]
fn request_stream_is_taken_once() {
    let mut cell = RequestStream::new("stream");
    assert!(!cell.is_taken());
    assert_eq!(cell.take(), Some("stream"));
    assert!(cell.is_taken());
    assert_eq!(cell.take(), None);
    assert_eq!(cell.take(), None);
}

#[test]
fn request_stream_shows_whether_it_is_taken() {
    let mut cell = RequestStream::new(1);
    assert_eq!(cell.to_debug_string(), "RequestStream { taken: false }");
    cell.take();
    assert_eq!(cell.to_debug_string(), "RequestStream { taken: true }");
    assert_eq!(debug_text(None), "RequestStream { taken: true }");
}

#[test]
fn inflight_guard_decrements_unless_disarmed() {
    let mut guard = InflightGuard::new();
    assert!(guard.decrements_on_drop());
    let mut heir = guard.hand_over();
    assert!(!guard.decrements_on_drop());
    assert!(heir.decrements_on_drop());
    heir.disarm();
    assert!(!heir.decrements_on_drop());
}

#[test]
fn stream_without_a_unit_gives_none_back() {
    let mut guard = InflightGuard::new();
    guard.disarm();
    let context = EngineContext {
        id: "req-1".to_string(),
        controls: (),
    };
    let (mut stream, context) = finalize_response_stream(7, context, guard).into_parts();
    assert_eq!(context.id, "req-1");
    assert_eq!(*stream.inner_mut(), 7);
    assert!(!stream.on_drop());
}

#[test]
fn cancel_guard_cancels_recv_then_send_once() {
    let mut guard = CancelGuard::arm(Some("r".to_string()), Some("s".to_string()));
    assert!(guard.is_armed());
    let plan = guard.on_drop();
    assert!(matches!(&plan[0], Cancellation::Recv(s) if s == "r"));
    assert!(matches!(&plan[1], Cancellation::Send(s) if s == "s"));
    assert_eq!(plan.len(), 2);
    assert!(guard.on_drop().is_empty());

    let mut guard = CancelGuard::arm(Some("r".to_string()), None);
    guard.disarm();
    assert!(!guard.is_armed());
    assert!(guard.on_drop().is_empty());
    assert_eq!(cancel_both(None, Some("s".to_string())).len(), 1);
    assert!(cancel_both(None, None).is_empty());
}
