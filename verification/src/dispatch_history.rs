//! What a dispatch asks for, told from what it was started with and what it has been told.
//!
//! Each law speaks of a run: the events that a dispatch has taken in since its start, and
//! the effects that it has asked for on the way.

use vstd::prelude::*;

use crate::dispatch::{
    DispatchEventView, DispatchView, EffectView, HandshakeView, RegistrationView, StageView,
};
use crate::error::{DispatchErrorView, DynamoErrorView, ErrorType, PipelineErrorView};
use crate::guards::CancellationView;
use crate::instance::EndpointInstanceIdView;
use crate::wire::{RequestType, ResponseType};

verus! {

/// The half on which the worker answers, as the registration at the head of `events` has it.
pub open spec fn recv_half<E>(events: Seq<DispatchEventView<E>>) -> RegistrationView {
    events[0]->Registered_recv->0
}

/// The half on which the worker is fed, where the registration has one.
pub open spec fn send_half<E>(events: Seq<DispatchEventView<E>>) -> Option<RegistrationView> {
    events[0]->Registered_send
}

/// The subject of the half on which the worker is fed, where there is one.
pub open spec fn send_subject<E>(events: Seq<DispatchEventView<E>>) -> Option<Seq<char>> {
    if send_half(events) is Some {
        send_half(events)->0.subject
    } else {
        None
    }
}

/// `plan` cancels the receiving half, if it has a subject, then the sending half, if there is
/// one and it has a subject, and nothing else.
pub open spec fn cancels_both(
    plan: Seq<CancellationView>,
    recv_subject: Option<Seq<char>>,
    send_subject: Option<Seq<char>>,
) -> bool {
    &&& plan.len() == (if recv_subject is Some {
        1nat
    } else {
        0nat
    }) + (if send_subject is Some {
        1nat
    } else {
        0nat
    })
    &&& recv_subject is Some ==> plan.first() == CancellationView::Recv(recv_subject->0)
    &&& send_subject is Some ==> plan.last() == CancellationView::Send(send_subject->0)
}

/// `event` can be the answer to `question`.
pub open spec fn answers<E>(question: EffectView<E>, event: DispatchEventView<E>) -> bool {
    match event {
        DispatchEventView::Registered { send, recv } => {
            &&& question is Register
            &&& send is Some <==> question->request_stream
            &&& recv is Some <==> question->response_stream
        },
        DispatchEventView::Associated { live } => question is Associate,
        DispatchEventView::Cancelled => question is CancelNow,
        DispatchEventView::ControlSerialized(_) => question is SerializeControl,
        DispatchEventView::PayloadSerialized(_) => question is SerializePayload,
        DispatchEventView::Encoded(_) => question is Encode,
        DispatchEventView::Sent(_) => question is Send,
        DispatchEventView::RequestStream(_) => question is AwaitRequestStream,
        DispatchEventView::ResponseStream(_) => question is AwaitResponseStream,
    }
}

/// `event` is a reason for a dispatch to fail.
pub open spec fn is_cause<E>(event: DispatchEventView<E>) -> bool {
    match event {
        DispatchEventView::Registered { send, recv } => false,
        DispatchEventView::Associated { live } => !live,
        DispatchEventView::Cancelled => false,
        DispatchEventView::ControlSerialized(result) => result is Err || result->Ok_0.len()
            > 131072,
        DispatchEventView::PayloadSerialized(result) => result is Err,
        DispatchEventView::Encoded(result) => result is Err,
        DispatchEventView::Sent(result) => result is Err,
        DispatchEventView::RequestStream(handshake) => !(handshake is Ready),
        DispatchEventView::ResponseStream(handshake) => !(handshake is Ready),
    }
}

/// The guard of a dispatch is over the streams that were registered.
spec fn guards_streams<E>(s: DispatchView, events: Seq<DispatchEventView<E>>) -> bool {
    &&& s.cancel is Some
    &&& s.cancel->0.armed
    &&& s.cancel->0.recv_subject == recv_half(events).subject
    &&& s.cancel->0.send_subject == send_subject(events)
}

/// What a dispatch knows of the events that it has taken in.
spec fn remembers<E>(
    start: DispatchView,
    events: Seq<DispatchEventView<E>>,
    s: DispatchView,
    log: Seq<EffectView<E>>,
) -> bool {
    let streams = start.request_type == RequestType::ManyIn;
    &&& s.request_type == start.request_type
    &&& s.id == start.id
    &&& s.metadata == start.metadata
    &&& s.address == start.address
    &&& s.instance == start.instance
    &&& s.inflight <==> !(s.stage is Finished)
    &&& log.len() > 0
    &&& s.stage is Registering <==> events.len() == 0
    &&& events.len() > 0 ==> {
        &&& events[0] is Registered
        &&& events[0]->Registered_recv is Some
        &&& events[0]->Registered_send is Some <==> streams
    }
    &&& match s.stage {
        StageView::Registering => {
            &&& s.cancel is None
            &&& log.last() == (EffectView::<E>::Register {
                request_stream: streams,
                response_stream: true,
            })
        },
        StageView::Associating { recv, send } => {
            &&& s.cancel is None
            &&& events.len() == 1
            &&& recv == recv_half(events)
            &&& send == send_half(events)
            &&& log.last() is Associate
        },
        StageView::Cancelling => {
            &&& s.cancel is None
            &&& log.last() is CancelNow
            &&& events.last() == (DispatchEventView::<E>::Associated { live: false })
        },
        StageView::SerializingControl => {
            &&& guards_streams(s, events)
            &&& log.last() is SerializeControl
        },
        StageView::SerializingPayload { ctrl } => {
            &&& guards_streams(s, events)
            &&& !streams
            &&& ctrl.len() <= 131072
            &&& events.last() == DispatchEventView::<E>::ControlSerialized(Ok(ctrl))
            &&& log.last() is SerializePayload
        },
        StageView::Encoding { span_label } => {
            &&& guards_streams(s, events)
            &&& span_label == "transport.tcp.send"@
            &&& log.last() is Encode
        },
        StageView::Sending => guards_streams(s, events) && log.last() is Send,
        StageView::AwaitingRequestStream => {
            &&& guards_streams(s, events)
            &&& streams
            &&& log.last() is AwaitRequestStream
        },
        StageView::AwaitingResponseStream => {
            &&& guards_streams(s, events)
            &&& log.last() is AwaitResponseStream
        },
        StageView::Finished => s.cancel is None && (log.last() is Fail || log.last() is Deliver),
    }
}

proof fn lemma_remembers<E>(start: DispatchView, events: Seq<DispatchEventView<E>>)
    requires
        crate::dispatch_laws::is_start(start),
        crate::dispatch_laws::possible(start, events),
    ensures
        remembers(
            start,
            events,
            crate::dispatch_laws::run(start, events).0,
            crate::dispatch_laws::run(start, events).1,
        ),
    decreases events.len(),
{
    if events.len() > 0 {
        let earlier = events.drop_last();
        lemma_remembers(start, earlier);
        let before = crate::dispatch_laws::run(start, earlier);
        let step = before.0.next(events.last());
        assert(step.1.len() > 0);
        assert(crate::dispatch_laws::run(start, events).1.last() == step.1.last());
        if events.len() == 1 {
            assert(events[0] == events.last());
        } else {
            assert(events[0] == earlier[0]);
        }
    }
}

/// A dispatch is started with what it is given: it is of the kind, has the id, the metadata
/// and the address, and is for the instance that it was started with. So every control
/// message of it bears that id and that metadata.
pub proof fn law_started_dispatch_is_of_its_request<E>(
    request_type: RequestType,
    id: Seq<char>,
    metadata: Map<Seq<char>, Seq<char>>,
    address: Seq<char>,
    instance: Option<crate::instance::InstanceView>,
    events: Seq<DispatchEventView<E>>,
    i: int,
)
    requires
        crate::dispatch_laws::possible(
            DispatchView::started(request_type, id, metadata, address, instance),
            events,
        ),
    ensures
        ({
            let start = DispatchView::started(request_type, id, metadata, address, instance);
            let asked = crate::dispatch_laws::run(start, events).1;
            &&& crate::dispatch_laws::is_start(start)
            &&& start.request_type == request_type
            &&& start.id == id
            &&& start.metadata == metadata
            &&& start.address == address
            &&& start.instance == instance
            &&& 0 <= i < asked.len() && asked[i] is SerializeControl ==> {
                &&& asked[i]->SerializeControl_0.request_type == request_type
                &&& asked[i]->SerializeControl_0.id == id
                &&& asked[i]->SerializeControl_0.metadata == metadata
            }
        }),
{
    let start = DispatchView::started(request_type, id, metadata, address, instance);
    let asked = crate::dispatch_laws::run(start, events).1;
    if 0 <= i < asked.len() && asked[i] is SerializeControl {
        law_control_message_tells_where_to_dial(start, events, i);
    }
}

/// A dispatch starts by counting itself and by asking for its streams: always for the one
/// that brings the answer, and for the one that takes the input if the input is a stream.
pub proof fn law_start_counts_and_registers<E>(start: DispatchView)
    requires
        crate::dispatch_laws::is_start(start),
    ensures
        crate::dispatch_laws::run::<E>(start, seq![]).1 == seq![
            EffectView::<E>::IncrementInflight,
            EffectView::<E>::Register {
                request_stream: start.request_type == RequestType::ManyIn,
                response_stream: true,
            },
        ],
{
    assert(crate::dispatch_laws::run::<E>(start, seq![]).1 =~= seq![
        EffectView::<E>::IncrementInflight,
        EffectView::<E>::Register {
            request_stream: start.request_type == RequestType::ManyIn,
            response_stream: true,
        },
    ]);
}

/// A dispatch takes every answer to the question it asked last, whatever the answer says,
/// and nothing else. A registration answers only if it has the halves that were asked for.
pub proof fn law_every_answer_is_taken<E>(
    start: DispatchView,
    events: Seq<DispatchEventView<E>>,
    event: DispatchEventView<E>,
)
    requires
        crate::dispatch_laws::is_start(start),
        crate::dispatch_laws::possible(start, events),
    ensures
        crate::dispatch_laws::run(start, events).1.len() > 0,
        crate::dispatch_laws::run(start, events).0.expects(event) <==> answers(
            crate::dispatch_laws::run(start, events).1.last(),
            event,
        ),
{
    lemma_remembers(start, events);
}

/// Every control message that a dispatch has serialised tells the worker to answer on the
/// half that was registered for receiving, and to read its input from the half that was
/// registered for sending, where there is one. It says of what kind the request is, that the
/// answer is a stream, and it bears the id and the metadata of the request.
pub proof fn law_control_message_tells_where_to_dial<E>(
    start: DispatchView,
    events: Seq<DispatchEventView<E>>,
    i: int,
)
    requires
        crate::dispatch_laws::is_start(start),
        crate::dispatch_laws::possible(start, events),
        0 <= i < crate::dispatch_laws::run(start, events).1.len(),
        crate::dispatch_laws::run(start, events).1[i] is SerializeControl,
    ensures
        events.len() > 0,
        events[0] is Registered,
        events[0]->Registered_recv is Some,
        ({
            let message = crate::dispatch_laws::run(start, events).1[i]->SerializeControl_0;
            &&& message.connection_info.transport == recv_half(events).info.transport
            &&& message.connection_info.info == recv_half(events).info.info
            &&& message.request_stream_connection_info is Some <==> send_half(events) is Some
            &&& send_half(events) is Some ==> {
                &&& message.request_stream_connection_info->0.transport == send_half(
                    events,
                )->0.info.transport
                &&& message.request_stream_connection_info->0.info == send_half(events)->0.info.info
            }
            &&& message.request_type == start.request_type
            &&& message.request_type == RequestType::ManyIn <==> send_half(events) is Some
            &&& message.response_type == ResponseType::ManyOut
            &&& message.id == start.id
            &&& message.metadata == start.metadata
            &&& message.frontend_send_ts_ns is None
        }),
    decreases events.len(),
{
    lemma_remembers(start, events);
    if events.len() > 0 {
        let earlier = events.drop_last();
        let before = crate::dispatch_laws::run(start, earlier);
        lemma_remembers(start, earlier);
        if i < before.1.len() {
            assert(crate::dispatch_laws::run(start, events).1[i] == before.1[i]);
            law_control_message_tells_where_to_dial(start, earlier, i);
            assert(earlier[0] == events[0]);
        } else if events.len() == 1 {
            assert(events[0] == events.last());
        } else {
            assert(earlier[0] == events[0]);
        }
    }
}

/// What follows a registration. A request that is addressed to an instance has its streams
/// tied to that very instance, by its endpoint and its number, if they can be named; any
/// other goes on to its control message at once.
pub proof fn law_registration_is_tied_to_the_instance<E>(
    start: DispatchView,
    registered: DispatchEventView<E>,
)
    requires
        crate::dispatch_laws::is_start(start),
        crate::dispatch_laws::possible(start, seq![registered]),
    ensures
        ({
            let asked = crate::dispatch_laws::run(start, seq![registered]).1;
            let recv = registered->Registered_recv->0;
            &&& asked.len() == 3
            &&& start.instance is Some && recv.subject is Some ==> {
                &&& asked[2] is Associate
                &&& asked[2]->recv_subject == recv.subject->0
                &&& asked[2]->send_subject == send_subject(seq![registered])
                &&& asked[2]->instance.endpoint == start.instance->0.endpoint
                &&& asked[2]->instance.instance_id == start.instance->0.instance_id
            }
            &&& start.instance is None || recv.subject is None ==> asked[2] is SerializeControl
        }),
{
    let events = seq![registered];
    assert(events.drop_last() =~= seq![]);
    assert(events.last() == registered);
}

/// An instance that is alive has the control message serialised next; one that has been
/// removed has both halves of the streams cancelled.
pub proof fn law_only_a_removed_instance_stops_a_request<E>(
    start: DispatchView,
    events: Seq<DispatchEventView<E>>,
    live: bool,
)
    requires
        crate::dispatch_laws::is_start(start),
        crate::dispatch_laws::possible(start, events),
        events.len() > 0,
        events.last() == (DispatchEventView::<E>::Associated { live }),
    ensures
        ({
            let before = crate::dispatch_laws::run(start, events.drop_last()).1;
            let now = crate::dispatch_laws::run(start, events).1;
            &&& now == before.push(now.last())
            &&& live ==> now.last() is SerializeControl
            &&& !live ==> {
                &&& now.last() is CancelNow
                &&& cancels_both(
                    now.last()->CancelNow_0,
                    recv_half(events).subject,
                    send_subject(events),
                )
            }
        }),
{
    lemma_remembers(start, events.drop_last());
    let before = crate::dispatch_laws::run(start, events.drop_last());
    assert(events.drop_last()[0] == events[0]);
    assert(crate::dispatch_laws::run(start, events).1 =~= before.1.push(
        crate::dispatch_laws::run(start, events).1.last(),
    ));
}

/// A control message within the limit goes into the envelope as the serialiser made it:
/// alone if the input is a stream, and else together with the payload, as the serialiser
/// made that.
pub proof fn law_envelope_holds_what_was_serialised<E>(
    start: DispatchView,
    events: Seq<DispatchEventView<E>>,
    bytes: Seq<u8>,
)
    requires
        crate::dispatch_laws::is_start(start),
        crate::dispatch_laws::possible(start, events),
        events.len() > 0,
    ensures
        ({
            let before = crate::dispatch_laws::run(start, events.drop_last()).1;
            let now = crate::dispatch_laws::run(start, events).1;
            let previous = events[events.len() - 2];
            &&& events.last() == DispatchEventView::<E>::ControlSerialized(Ok(bytes))
                && bytes.len() <= 131072 ==> {
                &&& now == before.push(now.last())
                &&& start.request_type == RequestType::SingleIn ==> now.last() is SerializePayload
                &&& start.request_type == RequestType::ManyIn ==> {
                    &&& now.last() is Encode
                    &&& now.last()->Encode_0.header == bytes
                    &&& now.last()->Encode_0.data is None
                }
            }
            &&& events.last() == DispatchEventView::<E>::PayloadSerialized(Ok(bytes)) ==> {
                &&& now == before.push(now.last())
                &&& now.last() is Encode
                &&& previous == DispatchEventView::<E>::ControlSerialized(
                    Ok(now.last()->Encode_0.header),
                )
                &&& now.last()->Encode_0.data == Some(bytes)
            }
        }),
{
    lemma_remembers(start, events.drop_last());
    let before = crate::dispatch_laws::run(start, events.drop_last());
    if events.len() > 1 {
        assert(events.drop_last().last() == events[events.len() - 2]);
    }
    if events.last() is ControlSerialized || events.last() is PayloadSerialized {
        if crate::dispatch_laws::run(start, events).1.len() == before.1.len() + 1 {
            assert(crate::dispatch_laws::run(start, events).1 =~= before.1.push(
                crate::dispatch_laws::run(start, events).1.last(),
            ));
        }
    }
}

/// What the codec made is sent to the address and under the id of the request, in the span
/// of sending, once the time in the queue has been observed.
pub proof fn law_encoded_request_is_sent<E>(
    start: DispatchView,
    events: Seq<DispatchEventView<E>>,
    buffer: Seq<u8>,
)
    requires
        crate::dispatch_laws::is_start(start),
        crate::dispatch_laws::possible(start, events),
        events.len() > 0,
        events.last() == DispatchEventView::<E>::Encoded(Ok(buffer)),
    ensures
        crate::dispatch_laws::run(start, events).1 == crate::dispatch_laws::run(
            start,
            events.drop_last(),
        ).1.push(EffectView::ObserveQueueTime).push(
            EffectView::Send {
                address: start.address,
                buffer,
                request_id: start.id,
                span_label: "transport.tcp.send"@,
            },
        ),
{
    lemma_remembers(start, events.drop_last());
}

/// A request that has been sent is waited for, whatever it is addressed to: the time of
/// sending is observed, and a unary request waits for its answer, in the span of waiting,
/// a streaming one for the worker to take its input.
pub proof fn law_sent_request_is_waited_for<E>(
    start: DispatchView,
    events: Seq<DispatchEventView<E>>,
)
    requires
        crate::dispatch_laws::is_start(start),
        crate::dispatch_laws::possible(start, events),
        events.len() > 0,
        events.last() == DispatchEventView::<E>::Sent(Ok(())),
    ensures
        crate::dispatch_laws::run(start, events).1 == crate::dispatch_laws::run(
            start,
            events.drop_last(),
        ).1.push(EffectView::ObserveSendTime).push(
            if start.request_type == RequestType::ManyIn {
                EffectView::AwaitRequestStream
            } else {
                EffectView::AwaitResponseStream { wait_label: Some("transport.tcp.wait_backend"@) }
            },
        ),
{
    lemma_remembers(start, events.drop_last());
}

/// A worker that has dialled back is used: once it takes input, the input is forwarded and
/// the answer is waited for; once it answers, the answer is delivered, and with it the
/// unit of the gauge.
pub proof fn law_worker_that_dials_back_is_used<E>(
    start: DispatchView,
    events: Seq<DispatchEventView<E>>,
)
    requires
        crate::dispatch_laws::is_start(start),
        crate::dispatch_laws::possible(start, events),
        events.len() > 0,
    ensures
        ({
            let before = crate::dispatch_laws::run(start, events.drop_last()).1;
            let now = crate::dispatch_laws::run(start, events).1;
            &&& events.last() == DispatchEventView::<E>::RequestStream(HandshakeView::Ready)
                ==> now == before.push(EffectView::SpawnForwarder).push(
                EffectView::AwaitResponseStream { wait_label: None },
            )
            &&& events.last() == DispatchEventView::<E>::ResponseStream(HandshakeView::Ready)
                ==> now == before.push(EffectView::Deliver { inflight: true })
        }),
{
    lemma_remembers(start, events.drop_last());
    let before = crate::dispatch_laws::run(start, events.drop_last()).1;
    let now = crate::dispatch_laws::run(start, events).1;
    if events.last() == DispatchEventView::<E>::RequestStream(HandshakeView::Ready) {
        assert(now =~= before.push(EffectView::SpawnForwarder).push(
            EffectView::AwaitResponseStream { wait_label: None },
        ));
    }
    if events.last() == DispatchEventView::<E>::ResponseStream(HandshakeView::Ready) {
        assert(now =~= before.push(EffectView::Deliver { inflight: true }));
    }
}

/// A dispatch fails for cause only. A run in which the instance is alive, nothing errs,
/// the control message is within the limit and every worker that is waited for dials back
/// asks for no failure, and delivers once the answer stands. It makes no difference whether
/// the request is addressed to an instance.
pub proof fn law_dispatch_fails_only_for_cause<E>(
    start: DispatchView,
    events: Seq<DispatchEventView<E>>,
)
    requires
        crate::dispatch_laws::is_start(start),
        crate::dispatch_laws::possible(start, events),
        forall|i: int| 0 <= i < events.len() ==> !is_cause(#[trigger] events[i]),
    ensures
        forall|j: int|
            0 <= j < crate::dispatch_laws::run(start, events).1.len() ==> !((
            #[trigger] crate::dispatch_laws::run(start, events).1[j]) is Fail),
        events.len() > 0 && events.last() is ResponseStream <==> crate::dispatch_laws::run(
            start,
            events,
        ).1.last() == (EffectView::<E>::Deliver { inflight: true }),
        events.len() > 0 && events.last() is ResponseStream <==> crate::dispatch_laws::run(
            start,
            events,
        ).0.stage is Finished,
    decreases events.len(),
{
    lemma_remembers(start, events);
    if events.len() > 0 {
        let earlier = events.drop_last();
        assert forall|i: int| 0 <= i < earlier.len() implies !is_cause(#[trigger] earlier[i]) by {
            assert(earlier[i] == events[i]);
        }
        assert(!is_cause(events[events.len() - 1]));
        lemma_remembers(start, earlier);
        law_dispatch_fails_only_for_cause(start, earlier);
        let before = crate::dispatch_laws::run(start, earlier);
        let step = before.0.next(events.last());
        if earlier.len() > 0 {
            assert(earlier.last() == earlier[earlier.len() - 1]);
        }
        assert forall|j: int| 0 <= j < crate::dispatch_laws::run(start, events).1.len() implies !((
        #[trigger] crate::dispatch_laws::run(start, events).1[j]) is Fail) by {
            if j < before.1.len() {
                assert(crate::dispatch_laws::run(start, events).1[j] == before.1[j]);
            } else {
                assert(crate::dispatch_laws::run(start, events).1[j] == step.1[j
                    - before.1.len()]);
            }
        }
        assert(crate::dispatch_laws::run(start, events).1.last() == step.1.last());
    }
}

/// What a failure says: whom the caller can blame, and what happened, in words. An error of
/// the serialiser, the codec or the client is handed on as it is.
pub open spec fn says_why<E>(error: DispatchErrorView<E>, cause: DispatchEventView<E>) -> bool {
    match cause {
        DispatchEventView::Cancelled => error == DispatchErrorView::<E>::Dynamo(
            DynamoErrorView {
                error_type: Some(ErrorType::Disconnected),
                message: "Worker removed before request could be sent (tombstoned instance)"@,
            },
        ),
        DispatchEventView::ControlSerialized(Err(e)) => error == DispatchErrorView::Outside(e),
        DispatchEventView::ControlSerialized(Ok(bytes)) => error == DispatchErrorView::<
            E,
        >::Pipeline(
            PipelineErrorView::Generic(
                "request control message too large: "@ + crate::text::digits(bytes.len())
                    + " bytes exceeds limit "@ + "131072"@,
            ),
        ),
        DispatchEventView::PayloadSerialized(Err(e)) => error == DispatchErrorView::Outside(e),
        DispatchEventView::Encoded(Err(e)) => error == DispatchErrorView::Outside(e),
        DispatchEventView::Sent(Err(e)) => error == DispatchErrorView::Outside(e),
        DispatchEventView::RequestStream(HandshakeView::Refused(text)) => error
            == DispatchErrorView::<E>::Dynamo(
            DynamoErrorView {
                error_type: Some(ErrorType::CannotConnect),
                message: "Worker dial-in failed for request stream: "@ + text,
            },
        ),
        DispatchEventView::RequestStream(HandshakeView::Dropped) => error
            == DispatchErrorView::<E>::Dynamo(
            DynamoErrorView {
                error_type: Some(ErrorType::Disconnected),
                message: "Worker disconnected before request stream was established"@,
            },
        ),
        DispatchEventView::ResponseStream(HandshakeView::Refused(text)) => error
            == DispatchErrorView::<E>::Dynamo(
            DynamoErrorView {
                error_type: Some(ErrorType::CannotConnect),
                message: "Worker generate() failed before response stream: "@ + text,
            },
        ),
        DispatchEventView::ResponseStream(HandshakeView::Dropped) => error
            == DispatchErrorView::<E>::Dynamo(
            DynamoErrorView {
                error_type: Some(ErrorType::Disconnected),
                message: "Worker disconnected before response stream was established"@,
            },
        ),
        _ => false,
    }
}

/// Every cause ends the dispatch, and the failure says what it was. The streams are
/// cancelled, both halves of them, the gauge goes down, and then the caller gets the error.
/// Where the instance had been removed, the streams have been cancelled before.
pub proof fn law_every_cause_is_reported<E>(
    start: DispatchView,
    events: Seq<DispatchEventView<E>>,
)
    requires
        crate::dispatch_laws::is_start(start),
        crate::dispatch_laws::possible(start, events),
        events.len() > 0,
        (is_cause(events.last()) && !(events.last() is Associated)) || events.last() is Cancelled,
    ensures
        crate::dispatch_laws::run(start, events).0.stage is Finished,
        ({
            let before = crate::dispatch_laws::run(start, events.drop_last()).1;
            let now = crate::dispatch_laws::run(start, events).1;
            &&& now.last() is Fail
            &&& says_why(now.last()->Fail_0, events.last())
            &&& events.last() is Cancelled ==> now == before.push(
                EffectView::DecrementInflight,
            ).push(now.last())
            &&& !(events.last() is Cancelled) ==> {
                let release = now[before.len() as int];
                &&& now == before.push(release).push(EffectView::DecrementInflight).push(now.last())
                &&& release is CancelDetached
                &&& cancels_both(
                    release->CancelDetached_0,
                    recv_half(events).subject,
                    send_subject(events),
                )
            }
        }),
{
    lemma_remembers(start, events.drop_last());
    if events.last() is ControlSerialized {
        crate::wire::law_control_message_is_limited(events.last()->ControlSerialized_0);
    }
    let before = crate::dispatch_laws::run(start, events.drop_last());
    let now = crate::dispatch_laws::run(start, events).1;
    assert(before.1.len() > 0 && events.drop_last().len() > 0);
    assert(events.drop_last()[0] == events[0]);
    if events.last() is Cancelled {
        assert(now =~= before.1.push(EffectView::DecrementInflight).push(now.last()));
    } else {
        assert(now =~= before.1.push(now[before.1.len() as int]).push(
            EffectView::DecrementInflight,
        ).push(now.last()));
    }
}

/// What a dispatch gives back where it is dropped half-way. Until its streams are guarded
/// that is its unit of the gauge; from then on both halves of the streams are cancelled
/// first. One that has ended gives nothing back.
pub proof fn law_dropped_dispatch_gives_back_what_it_holds<E>(
    start: DispatchView,
    events: Seq<DispatchEventView<E>>,
)
    requires
        crate::dispatch_laws::is_start(start),
        crate::dispatch_laws::possible(start, events),
    ensures
        ({
            let last = crate::dispatch_laws::run(start, events).1.last();
            let given = crate::dispatch_laws::run(start, events).0.release::<E>();
            if last is Fail || last is Deliver {
                given.len() == 0
            } else if last is Register || last is Associate || last is CancelNow {
                given == seq![EffectView::<E>::DecrementInflight]
            } else {
                &&& given.len() == 2
                &&& given[0] is CancelDetached
                &&& cancels_both(
                    given[0]->CancelDetached_0,
                    recv_half(events).subject,
                    send_subject(events),
                )
                &&& given[1] is DecrementInflight
            }
        }),
{
    lemma_remembers(start, events);
}

/// A dispatch that has been given up is over: it takes in nothing and holds nothing.
pub proof fn law_abandoned_dispatch_is_over<E>(s: DispatchView, event: DispatchEventView<E>)
    ensures
        !s.finished().expects(event),
        s.finished().release::<E>().len() == 0,
{
}

} // verus!
