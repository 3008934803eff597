//! The plain values that contracts speak of hold all that the values they stand for hold,
//! field by field and nothing else.

use vstd::prelude::*;

use crate::codec::{TwoPartMessage, TwoPartView};
use crate::dispatch::{
    DispatchEvent, DispatchEventView, Effect, EffectView, Handshake, HandshakeView, Registration,
    RegistrationView,
};
use crate::error::{
    DispatchError, DispatchErrorView, DynamoError, DynamoErrorView, PipelineError,
    PipelineErrorView,
};
use crate::forwarder::{ForwardAction, ForwardActionView, ForwardEvent, ForwardEventView};
use crate::guards::{Cancellation, CancellationView};
use crate::instance::{EndpointInstanceId, EndpointInstanceIdView, Instance, InstanceView};
use crate::response::NetworkStreamWrapper;
use crate::wire::{ConnectionInfo, ConnectionInfoView, ControlView, RequestControlMessage};

verus! {

/// `plain` says what `text` says.
pub open spec fn same_text(text: Option<String>, plain: Option<Seq<char>>) -> bool {
    &&& text is Some <==> plain is Some
    &&& text is Some ==> text->0@ == plain->0
}

/// `plain` says what `label` says.
pub open spec fn same_label(label: Option<&'static str>, plain: Option<Seq<char>>) -> bool {
    &&& label is Some <==> plain is Some
    &&& label is Some ==> label->0@ == plain->0
}

pub open spec fn same_connection(info: ConnectionInfo, plain: ConnectionInfoView) -> bool {
    &&& info.transport@ == plain.transport
    &&& info.info@ == plain.info
}

pub open spec fn same_half(half: Option<Registration>, plain: Option<RegistrationView>) -> bool {
    &&& half is Some <==> plain is Some
    &&& half is Some ==> {
        &&& same_connection(half->0.info, plain->0.info)
        &&& same_text(half->0.subject, plain->0.subject)
    }
}

/// `plain` is the same result, byte for byte.
pub open spec fn same_bytes<E>(result: Result<Vec<u8>, E>, plain: Result<Seq<u8>, E>) -> bool {
    match (result, plain) {
        (Ok(bytes), Ok(plain)) => bytes@ == plain,
        (Err(error), Err(plain)) => error == plain,
        _ => false,
    }
}

pub open spec fn same_handshake(handshake: Handshake, plain: HandshakeView) -> bool {
    match (handshake, plain) {
        (Handshake::Ready, HandshakeView::Ready) => true,
        (Handshake::Refused(text), HandshakeView::Refused(plain)) => text@ == plain,
        (Handshake::Dropped, HandshakeView::Dropped) => true,
        _ => false,
    }
}

pub open spec fn same_message(message: TwoPartMessage, plain: TwoPartView) -> bool {
    &&& crate::codec::bytes_content(message.header) == plain.header
    &&& message.data is Some <==> plain.data is Some
    &&& message.data is Some ==> crate::codec::bytes_content(message.data->0) == plain.data->0
}

pub open spec fn same_control(message: RequestControlMessage, plain: ControlView) -> bool {
    &&& message.id@ == plain.id
    &&& message.request_type == plain.request_type
    &&& message.response_type == plain.response_type
    &&& same_connection(message.connection_info, plain.connection_info)
    &&& message.metadata@ == plain.metadata
    &&& message.frontend_send_ts_ns == plain.frontend_send_ts_ns
    &&& message.request_stream_connection_info is Some
        <==> plain.request_stream_connection_info is Some
    &&& message.request_stream_connection_info is Some ==> same_connection(
        message.request_stream_connection_info->0,
        plain.request_stream_connection_info->0,
    )
}

pub open spec fn same_name(name: EndpointInstanceId, plain: EndpointInstanceIdView) -> bool {
    &&& name.endpoint@ == plain.endpoint
    &&& name.instance_id == plain.instance_id
}

pub open spec fn same_cancellation(cancellation: Cancellation, plain: CancellationView) -> bool {
    match (cancellation, plain) {
        (Cancellation::Recv(subject), CancellationView::Recv(plain)) => subject@ == plain,
        (Cancellation::Send(subject), CancellationView::Send(plain)) => subject@ == plain,
        _ => false,
    }
}

/// `plain` has the same cancellations in the same order.
pub open spec fn same_plan(plan: Seq<Cancellation>, plain: Seq<CancellationView>) -> bool {
    &&& plan.len() == plain.len()
    &&& forall|i: int| 0 <= i < plan.len() ==> same_cancellation(#[trigger] plan[i], plain[i])
}

pub open spec fn same_dynamo_error(error: DynamoError, plain: DynamoErrorView) -> bool {
    &&& error.error_type == plain.error_type
    &&& error.message@ == plain.message
}

pub open spec fn same_error<E>(error: DispatchError<E>, plain: DispatchErrorView<E>) -> bool {
    match (error, plain) {
        (DispatchError::Dynamo(error), DispatchErrorView::Dynamo(plain)) => same_dynamo_error(
            error,
            plain,
        ),
        (
            DispatchError::Pipeline(PipelineError::Generic(text)),
            DispatchErrorView::Pipeline(PipelineErrorView::Generic(plain)),
        ) => text@ == plain,
        (DispatchError::Outside(error), DispatchErrorView::Outside(plain)) => error == plain,
        _ => false,
    }
}

pub open spec fn same_event<E>(event: DispatchEvent<E>, plain: DispatchEventView<E>) -> bool {
    match (event, plain) {
        (
            DispatchEvent::Registered { send, recv },
            DispatchEventView::Registered { send: plain_send, recv: plain_recv },
        ) => same_half(send, plain_send) && same_half(recv, plain_recv),
        (
            DispatchEvent::Associated { live },
            DispatchEventView::Associated { live: plain_live },
        ) => live == plain_live,
        (DispatchEvent::Cancelled, DispatchEventView::Cancelled) => true,
        (
            DispatchEvent::ControlSerialized(result),
            DispatchEventView::ControlSerialized(plain),
        ) => same_bytes(result, plain),
        (
            DispatchEvent::PayloadSerialized(result),
            DispatchEventView::PayloadSerialized(plain),
        ) => same_bytes(result, plain),
        (DispatchEvent::Encoded(Ok(buffer)), DispatchEventView::Encoded(Ok(plain))) => {
            crate::codec::bytes_content(buffer) == plain
        },
        (DispatchEvent::Encoded(Err(error)), DispatchEventView::Encoded(Err(plain))) => error
            == plain,
        (DispatchEvent::Sent(result), DispatchEventView::Sent(plain)) => result == plain,
        (
            DispatchEvent::RequestStream(handshake),
            DispatchEventView::RequestStream(plain),
        ) => same_handshake(handshake, plain),
        (
            DispatchEvent::ResponseStream(handshake),
            DispatchEventView::ResponseStream(plain),
        ) => same_handshake(handshake, plain),
        _ => false,
    }
}

pub open spec fn same_effect<E>(effect: Effect<E>, plain: EffectView<E>) -> bool {
    match effect {
        Effect::IncrementInflight => plain is IncrementInflight,
        Effect::Register { request_stream, response_stream } => {
            &&& plain is Register
            &&& plain->request_stream == request_stream
            &&& plain->response_stream == response_stream
        },
        Effect::Associate { recv_subject, send_subject, instance } => {
            &&& plain is Associate
            &&& plain->recv_subject == recv_subject@
            &&& same_text(send_subject, plain->send_subject)
            &&& same_name(instance, plain->instance)
        },
        Effect::CancelNow(plan) => plain is CancelNow && same_plan(plan@, plain->CancelNow_0),
        Effect::SerializeControl(message) => plain is SerializeControl && same_control(
            message,
            plain->SerializeControl_0,
        ),
        Effect::SerializePayload => plain is SerializePayload,
        Effect::Encode(message) => plain is Encode && same_message(message, plain->Encode_0),
        Effect::ObserveQueueTime => plain is ObserveQueueTime,
        Effect::Send { address, buffer, request_id, span_label } => {
            &&& plain is Send
            &&& plain->address == address@
            &&& plain->buffer == crate::codec::bytes_content(buffer)
            &&& plain->request_id == request_id@
            &&& plain->span_label == span_label@
        },
        Effect::ObserveSendTime => plain is ObserveSendTime,
        Effect::AwaitRequestStream => plain is AwaitRequestStream,
        Effect::SpawnForwarder => plain is SpawnForwarder,
        Effect::AwaitResponseStream { wait_label } => plain is AwaitResponseStream && same_label(
            wait_label,
            plain->wait_label,
        ),
        Effect::CancelDetached(plan) => plain is CancelDetached && same_plan(
            plan@,
            plain->CancelDetached_0,
        ),
        Effect::DecrementInflight => plain is DecrementInflight,
        Effect::Fail(error) => plain is Fail && same_error(error, plain->Fail_0),
        Effect::Deliver { inflight } => plain is Deliver && plain->inflight == inflight.armed(),
    }
}

/// The plain value of an event says what the event says.
pub proof fn law_events_are_read_whole<E>(event: DispatchEvent<E>)
    ensures
        same_event(event, event@),
{
}

/// The plain value of an effect says what the effect says, and that of a list of effects
/// has the same effects in the same order.
pub proof fn law_effects_are_read_whole<E>(effects: Seq<Effect<E>>, i: int)
    ensures
        crate::dispatch::effects_of(effects).len() == effects.len(),
        0 <= i < effects.len() ==> same_effect(
            effects[i],
            crate::dispatch::effects_of(effects)[i],
        ),
{
}

/// The plain value of a plan to cancel has the same cancellations in the same order.
pub proof fn law_plans_are_read_whole(plan: Seq<Cancellation>)
    ensures
        same_plan(plan, crate::guards::plan_of(plan)),
{
}

/// What a forwarder is told and what it asks for are read as they are.
pub proof fn law_forwarding_is_read_whole(event: ForwardEvent, action: ForwardAction)
    ensures
        match event {
            ForwardEvent::Killed => event@ is Killed,
            ForwardEvent::Stopped => event@ is Stopped,
            ForwardEvent::Item => event@ is Item,
            ForwardEvent::EndOfInput => event@ is EndOfInput,
            ForwardEvent::Serialized(frame) => {
                &&& event@ is Serialized
                &&& frame is Some <==> event@->Serialized_0 is Some
                &&& frame is Some ==> event@->Serialized_0->0 == frame->0@
            },
            ForwardEvent::Sent(taken) => event@ == ForwardEventView::Sent(taken),
        },
        match action {
            ForwardAction::Poll => action@ is Poll,
            ForwardAction::Serialize => action@ is Serialize,
            ForwardAction::Send(frame) => action@ == ForwardActionView::Send(
                crate::codec::bytes_content(frame),
            ),
            ForwardAction::KillAndExit => action@ is KillAndExit,
            ForwardAction::Exit => action@ is Exit,
        },
{
}

/// The plain value of an instance has its endpoint, its number and its address.
pub proof fn law_instances_are_read_whole(instance: Instance, named: EndpointInstanceId)
    ensures
        instance@.endpoint == instance.endpoint@,
        instance@.instance_id == instance.instance_id,
        instance@.address == instance.transport@,
        crate::instance::instance_of(Some(instance)) == Some(instance@),
        crate::instance::instance_of(None) == None::<InstanceView>,
        same_name(named, named@),
{
}

/// The plain values of what goes on the wire, and of optional parts of it, say what it says.
pub proof fn law_messages_are_read_whole<E>(
    message: RequestControlMessage,
    envelope: TwoPartMessage,
    serialized: Result<Vec<u8>, E>,
    payload: Option<Vec<u8>>,
    connection: Option<ConnectionInfo>,
    text: Option<String>,
    half: Option<Registration>,
)
    ensures
        same_control(message, message@),
        same_message(envelope, envelope@),
        same_bytes(serialized, crate::wire::serialized_of(serialized)),
        payload is Some <==> crate::wire::payload_of(payload) is Some,
        payload is Some ==> crate::wire::payload_of(payload)->0 == payload->0@,
        connection is Some <==> crate::wire::connection_of(connection) is Some,
        connection is Some ==> same_connection(
            connection->0,
            crate::wire::connection_of(connection)->0,
        ),
        same_text(text, crate::text::text_of(text)),
        same_half(half, crate::dispatch::registration_of(half)),
{
}

/// The plain values of errors, frames and items say what they say.
pub proof fn law_answers_are_read_whole<U, E>(
    error: DispatchError<E>,
    late: Option<DynamoError>,
    decoded: Result<NetworkStreamWrapper<U>, String>,
    item: Option<Result<U, DynamoError>>,
    label: Option<&'static str>,
)
    ensures
        same_error(error, error@),
        late is Some <==> crate::response::error_of(late) is Some,
        late is Some ==> same_dynamo_error(late->0, crate::response::error_of(late)->0),
        match decoded {
            Ok(frame) => crate::response::decoded_of(decoded) == Ok::<
                NetworkStreamWrapper<U>,
                Seq<char>,
            >(frame),
            Err(text) => crate::response::decoded_of(decoded) == Err::<
                NetworkStreamWrapper<U>,
                Seq<char>,
            >(text@),
        },
        match item {
            Some(Ok(data)) => crate::response::item_of(item) == Some(
                Ok::<U, DynamoErrorView>(data),
            ),
            Some(Err(error)) => {
                &&& crate::response::item_of(item) matches Some(Err(plain))
                &&& same_dynamo_error(error, plain)
            },
            None => crate::response::item_of(item) is None,
        },
        same_label(label, crate::response::label_of(label)),
{
}

} // verus!
