//! One dispatch of a request to a worker, as a machine of stages.
//!
//! The machine asks for effects and is told what came of them. It decides what is
//! registered, whether the instance is still alive, what is serialised and sent, which
//! streams are awaited, and what is released when the dispatch ends.

use vstd::prelude::*;

use crate::codec::TwoPartMessage;
use crate::context::Context;
use crate::error::{DispatchError, DynamoError, ErrorType};
use crate::guards::{cancel_both, CancelGuard, Cancellation, InflightGuard};
use crate::instance::{EndpointInstanceId, Instance};
use crate::text::joined;
use crate::wire::{
    build_request_envelope, control_message, serialize_control_message, ConnectionInfo,
    RequestControlMessage, RequestType,
};

verus! {

/// One registered half of a stream: how the worker dials back, and the subject under
/// which the half can be cancelled, where the transport gives one.
#[derive(Debug)]
pub struct Registration {
    pub info: ConnectionInfo,
    pub subject: Option<String>,
}

/// The plain value of a [`Registration`].
pub struct RegistrationView {
    pub info: crate::wire::ConnectionInfoView,
    pub subject: Option<Seq<char>>,
}

impl View for Registration {
    type V = RegistrationView;

    open spec fn view(&self) -> RegistrationView {
        RegistrationView { info: self.info@, subject: crate::text::text_of(self.subject) }
    }
}

/// The plain value of an optional [`Registration`].
pub open spec fn registration_of(half: Option<Registration>) -> Option<RegistrationView> {
    match half {
        Some(half) => Some(half@),
        None => None,
    }
}

/// How the wait for a worker's dial-back ended.
#[derive(Debug)]
pub enum Handshake {
    /// The stream stands.
    Ready,
    /// The worker answered with an error.
    Refused(String),
    /// Nobody will answer any more.
    Dropped,
}

/// The plain value of a [`Handshake`].
pub enum HandshakeView {
    Ready,
    Refused(Seq<char>),
    Dropped,
}

impl View for Handshake {
    type V = HandshakeView;

    open spec fn view(&self) -> HandshakeView {
        match self {
            Handshake::Ready => HandshakeView::Ready,
            Handshake::Refused(text) => HandshakeView::Refused(text@),
            Handshake::Dropped => HandshakeView::Dropped,
        }
    }
}

/// What came of an effect.
#[derive(Debug)]
pub enum DispatchEvent<E> {
    /// The halves that the transport registered.
    Registered { send: Option<Registration>, recv: Option<Registration> },
    /// Whether the instance takes requests; if not, it has been removed.
    Associated { live: bool },
    /// The cancellations that were waited for are done.
    Cancelled,
    ControlSerialized(Result<Vec<u8>, E>),
    PayloadSerialized(Result<Vec<u8>, E>),
    Encoded(Result<bytes::Bytes, E>),
    Sent(Result<(), E>),
    RequestStream(Handshake),
    ResponseStream(Handshake),
}

/// The plain value of a [`DispatchEvent`].
pub enum DispatchEventView<E> {
    Registered { send: Option<RegistrationView>, recv: Option<RegistrationView> },
    Associated { live: bool },
    Cancelled,
    ControlSerialized(Result<Seq<u8>, E>),
    PayloadSerialized(Result<Seq<u8>, E>),
    Encoded(Result<Seq<u8>, E>),
    Sent(Result<(), E>),
    RequestStream(HandshakeView),
    ResponseStream(HandshakeView),
}

impl<E> View for DispatchEvent<E> {
    type V = DispatchEventView<E>;

    open spec fn view(&self) -> DispatchEventView<E> {
        match self {
            DispatchEvent::Registered { send, recv } => DispatchEventView::Registered {
                send: registration_of(*send),
                recv: registration_of(*recv),
            },
            DispatchEvent::Associated { live } => DispatchEventView::Associated { live: *live },
            DispatchEvent::Cancelled => DispatchEventView::Cancelled,
            DispatchEvent::ControlSerialized(result) => DispatchEventView::ControlSerialized(
                crate::wire::serialized_of(*result),
            ),
            DispatchEvent::PayloadSerialized(result) => DispatchEventView::PayloadSerialized(
                crate::wire::serialized_of(*result),
            ),
            DispatchEvent::Encoded(result) => DispatchEventView::Encoded(
                match *result {
                    Ok(buffer) => Ok(crate::codec::bytes_content(buffer)),
                    Err(error) => Err(error),
                },
            ),
            DispatchEvent::Sent(result) => DispatchEventView::Sent(*result),
            DispatchEvent::RequestStream(handshake) => DispatchEventView::RequestStream(
                handshake@,
            ),
            DispatchEvent::ResponseStream(handshake) => DispatchEventView::ResponseStream(
                handshake@,
            ),
        }
    }
}

/// What a dispatch asks for. The effects of one step are performed in order.
pub enum Effect<E> {
    /// Count the dispatch in the inflight gauge.
    IncrementInflight,
    /// Register these halves of a stream with the response transport.
    Register { request_stream: bool, response_stream: bool },
    /// Tie the registration to an instance, unless the instance has been removed.
    Associate {
        recv_subject: String,
        send_subject: Option<String>,
        instance: EndpointInstanceId,
    },
    /// Cancel, and wait until that is done.
    CancelNow(Vec<Cancellation>),
    SerializeControl(RequestControlMessage),
    SerializePayload,
    Encode(TwoPartMessage),
    /// Observe how long the request took to be ready.
    ObserveQueueTime,
    /// Send the buffer, within a span of that label.
    Send { address: String, buffer: bytes::Bytes, request_id: String, span_label: &'static str },
    /// Observe how long sending took.
    ObserveSendTime,
    AwaitRequestStream,
    /// Start to forward the input to the worker.
    SpawnForwarder,
    /// Wait for the response stream, within a span of that label where there is one.
    AwaitResponseStream { wait_label: Option<&'static str> },
    /// Cancel in a task of its own.
    CancelDetached(Vec<Cancellation>),
    /// Take the dispatch out of the inflight gauge.
    DecrementInflight,
    /// The dispatch has failed with this error.
    Fail(DispatchError<E>),
    /// The dispatch has succeeded. The response stream answers for the inflight gauge now:
    /// it takes this guard over.
    Deliver { inflight: InflightGuard },
}

/// The plain value of an [`Effect`].
pub enum EffectView<E> {
    IncrementInflight,
    Register { request_stream: bool, response_stream: bool },
    Associate {
        recv_subject: Seq<char>,
        send_subject: Option<Seq<char>>,
        instance: crate::instance::EndpointInstanceIdView,
    },
    CancelNow(Seq<crate::guards::CancellationView>),
    SerializeControl(crate::wire::ControlView),
    SerializePayload,
    Encode(crate::codec::TwoPartView),
    ObserveQueueTime,
    Send { address: Seq<char>, buffer: Seq<u8>, request_id: Seq<char>, span_label: Seq<char> },
    ObserveSendTime,
    AwaitRequestStream,
    SpawnForwarder,
    AwaitResponseStream { wait_label: Option<Seq<char>> },
    CancelDetached(Seq<crate::guards::CancellationView>),
    DecrementInflight,
    Fail(crate::error::DispatchErrorView<E>),
    Deliver { inflight: bool },
}

impl<E> View for Effect<E> {
    type V = EffectView<E>;

    open spec fn view(&self) -> EffectView<E> {
        match self {
            Effect::IncrementInflight => EffectView::IncrementInflight,
            Effect::Register { request_stream, response_stream } => EffectView::Register {
                request_stream: *request_stream,
                response_stream: *response_stream,
            },
            Effect::Associate { recv_subject, send_subject, instance } => EffectView::Associate {
                recv_subject: recv_subject@,
                send_subject: crate::text::text_of(*send_subject),
                instance: instance@,
            },
            Effect::CancelNow(plan) => EffectView::CancelNow(crate::guards::plan_of(plan@)),
            Effect::SerializeControl(message) => EffectView::SerializeControl(message@),
            Effect::SerializePayload => EffectView::SerializePayload,
            Effect::Encode(message) => EffectView::Encode(message@),
            Effect::ObserveQueueTime => EffectView::ObserveQueueTime,
            Effect::Send { address, buffer, request_id, span_label } => EffectView::Send {
                address: address@,
                buffer: crate::codec::bytes_content(*buffer),
                request_id: request_id@,
                span_label: span_label@,
            },
            Effect::ObserveSendTime => EffectView::ObserveSendTime,
            Effect::AwaitRequestStream => EffectView::AwaitRequestStream,
            Effect::SpawnForwarder => EffectView::SpawnForwarder,
            Effect::AwaitResponseStream { wait_label } => EffectView::AwaitResponseStream {
                wait_label: match wait_label {
                    Some(label) => Some(label@),
                    None => None,
                },
            },
            Effect::CancelDetached(plan) => EffectView::CancelDetached(
                crate::guards::plan_of(plan@),
            ),
            Effect::DecrementInflight => EffectView::DecrementInflight,
            Effect::Fail(error) => EffectView::Fail(error@),
            Effect::Deliver { inflight } => EffectView::Deliver { inflight: inflight.armed() },
        }
    }
}

/// The plain values of a list of effects.
pub open spec fn effects_of<E>(effects: Seq<Effect<E>>) -> Seq<EffectView<E>> {
    effects.map_values(|effect: Effect<E>| effect@)
}

/// What a dispatch waits for.
enum Stage {
    Registering,
    Associating { recv: Registration, send: Option<Registration> },
    Cancelling,
    SerializingControl,
    SerializingPayload { ctrl: Vec<u8> },
    Encoding { span_label: &'static str },
    Sending,
    AwaitingRequestStream,
    AwaitingResponseStream,
    Finished,
}

/// What a dispatch waits for, in plain values.
pub enum StageView {
    Registering,
    Associating { recv: RegistrationView, send: Option<RegistrationView> },
    Cancelling,
    SerializingControl,
    SerializingPayload { ctrl: Seq<u8> },
    Encoding { span_label: Seq<char> },
    Sending,
    AwaitingRequestStream,
    AwaitingResponseStream,
    Finished,
}

impl Stage {
    spec fn view(&self) -> StageView {
        match self {
            Stage::Registering => StageView::Registering,
            Stage::Associating { recv, send } => StageView::Associating {
                recv: recv@,
                send: registration_of(*send),
            },
            Stage::Cancelling => StageView::Cancelling,
            Stage::SerializingControl => StageView::SerializingControl,
            Stage::SerializingPayload { ctrl } => StageView::SerializingPayload { ctrl: ctrl@ },
            Stage::Encoding { span_label } => StageView::Encoding { span_label: span_label@ },
            Stage::Sending => StageView::Sending,
            Stage::AwaitingRequestStream => StageView::AwaitingRequestStream,
            Stage::AwaitingResponseStream => StageView::AwaitingResponseStream,
            Stage::Finished => StageView::Finished,
        }
    }
}

/// The dispatch of one request.
pub struct Dispatch {
    request_type: RequestType,
    context: Context<()>,
    address: String,
    instance: Option<Instance>,
    inflight: InflightGuard,
    cancel: Option<CancelGuard>,
    stage: Stage,
}

/// The state of a dispatch in plain values.
pub struct DispatchView {
    pub request_type: RequestType,
    pub id: Seq<char>,
    pub metadata: Map<Seq<char>, Seq<char>>,
    pub address: Seq<char>,
    pub instance: Option<crate::instance::InstanceView>,
    /// Whether the dispatch still answers for its unit of the inflight gauge.
    pub inflight: bool,
    /// The guard over the registered streams, once there is one.
    pub cancel: Option<crate::guards::CancelGuardView>,
    pub stage: StageView,
}

impl View for Dispatch {
    type V = DispatchView;

    closed spec fn view(&self) -> DispatchView {
        DispatchView {
            request_type: self.request_type,
            id: self.context@.id,
            metadata: self.context@.metadata,
            address: self.address@,
            instance: crate::instance::instance_of(self.instance),
            inflight: self.inflight.armed(),
            cancel: match self.cancel {
                Some(guard) => Some(guard@),
                None => None,
            },
            stage: self.stage.view(),
        }
    }
}

/// The label of the span that a unary request's wait for its worker is wrapped in.
pub open spec fn wait_span_label() -> Seq<char> {
    "transport.tcp.wait_backend"@
}

/// The error of a worker that was not reached, in the words `head` and those of the worker.
pub open spec fn refused<E>(head: Seq<char>, text: Seq<char>) -> crate::error::DispatchErrorView<
    E,
> {
    crate::error::DispatchErrorView::Dynamo(
        crate::error::DynamoErrorView {
            error_type: Some(ErrorType::CannotConnect),
            message: head + text,
        },
    )
}

/// The error of a worker that has gone away.
pub open spec fn disconnected<E>(message: Seq<char>) -> crate::error::DispatchErrorView<E> {
    crate::error::DispatchErrorView::Dynamo(
        crate::error::DynamoErrorView { error_type: Some(ErrorType::Disconnected), message },
    )
}

/// The association that a registration calls for: one of its receiving subject with the
/// instance, where there are both.
pub open spec fn association(
    recv_subject: Option<Seq<char>>,
    instance: Option<crate::instance::InstanceView>,
) -> Option<(Seq<char>, crate::instance::EndpointInstanceIdView)> {
    match (recv_subject, instance) {
        (Some(subject), Some(instance)) => Some((subject, instance.id())),
        _ => None,
    }
}

impl DispatchView {
    /// The state in which a dispatch of that kind starts.
    pub open spec fn started(
        request_type: RequestType,
        id: Seq<char>,
        metadata: Map<Seq<char>, Seq<char>>,
        address: Seq<char>,
        instance: Option<crate::instance::InstanceView>,
    ) -> DispatchView {
        DispatchView {
            request_type,
            id,
            metadata,
            address,
            instance,
            inflight: true,
            cancel: None,
            stage: StageView::Registering,
        }
    }

    /// What a dispatch that starts asks for: to be counted, and to have the streams of its
    /// kind registered.
    pub open spec fn start_effects<E>(request_type: RequestType) -> Seq<EffectView<E>> {
        seq![EffectView::IncrementInflight].push(
            EffectView::Register {
                request_stream: request_type == RequestType::ManyIn,
                response_stream: true,
            },
        )
    }

    /// Whether a registration came out in the shape that was asked for.
    pub open spec fn registered_as_asked(
        self,
        send: Option<RegistrationView>,
        recv: Option<RegistrationView>,
    ) -> bool {
        &&& (send is Some <==> self.request_type == RequestType::ManyIn)
        &&& recv is Some
    }

    /// Whether `event` is what the dispatch waits for.
    pub open spec fn expects<E>(self, event: DispatchEventView<E>) -> bool {
        match (self.stage, event) {
            (
                StageView::Registering,
                DispatchEventView::Registered { send, recv },
            ) => self.registered_as_asked(send, recv),
            (StageView::Associating { .. }, DispatchEventView::Associated { .. }) => true,
            (StageView::Cancelling, DispatchEventView::Cancelled) => true,
            (StageView::SerializingControl, DispatchEventView::ControlSerialized(_)) => true,
            (StageView::SerializingPayload { .. }, DispatchEventView::PayloadSerialized(_)) => true,
            (StageView::Encoding { .. }, DispatchEventView::Encoded(_)) => true,
            (StageView::Sending, DispatchEventView::Sent(_)) => true,
            (StageView::AwaitingRequestStream, DispatchEventView::RequestStream(_)) => true,
            (StageView::AwaitingResponseStream, DispatchEventView::ResponseStream(_)) => true,
            _ => false,
        }
    }

    /// What the dispatch gives back when it is dropped as it stands: its streams, where a
    /// guard holds them, then its unit of the gauge.
    pub open spec fn release<E>(self) -> Seq<EffectView<E>> {
        let streams = match self.cancel {
            Some(guard) => if guard.armed {
                seq![EffectView::CancelDetached(guard.on_drop())]
            } else {
                seq![]
            },
            None => seq![],
        };
        let gauge = if self.inflight {
            seq![EffectView::DecrementInflight]
        } else {
            seq![]
        };
        streams + gauge
    }

    /// The end of a dispatch that holds nothing any more.
    pub open spec fn finished(self) -> DispatchView {
        DispatchView { inflight: false, cancel: None, stage: StageView::Finished, ..self }
    }

    /// The end of a dispatch that fails: everything it holds is given back.
    pub open spec fn failed<E>(self, error: crate::error::DispatchErrorView<E>) -> (
        DispatchView,
        Seq<EffectView<E>>,
    ) {
        (self.finished(), self.release::<E>().push(EffectView::Fail(error)))
    }

    /// The streams are registered and the instance, if any, is alive: from here on a guard
    /// holds the streams. The control message comes next.
    pub open spec fn guarded<E>(self, recv: RegistrationView, send: Option<RegistrationView>) -> (
        DispatchView,
        Seq<EffectView<E>>,
    ) {
        (
            DispatchView {
                cancel: Some(
                    crate::guards::CancelGuardView {
                        armed: true,
                        recv_subject: recv.subject,
                        send_subject: match send {
                            Some(half) => half.subject,
                            None => None,
                        },
                    },
                ),
                stage: StageView::SerializingControl,
                ..self
            },
            seq![
                EffectView::SerializeControl(
                    crate::wire::control_of(
                        self.id,
                        self.metadata,
                        recv.info,
                        match send {
                            Some(half) => Some(half.info),
                            None => None,
                        },
                    ),
                ),
            ],
        )
    }

    /// The envelope is ready for the codec; its label waits for the write to the wire.
    pub open spec fn encoding<E>(self, header: Seq<u8>, data: Option<Seq<u8>>) -> (
        DispatchView,
        Seq<EffectView<E>>,
    ) {
        (
            DispatchView {
                stage: StageView::Encoding { span_label: crate::wire::send_span_label() },
                ..self
            },
            seq![EffectView::Encode(crate::codec::TwoPartView { header, data })],
        )
    }

    /// The state after `event`, and what the dispatch asks for then.
    pub open spec fn next<E>(self, event: DispatchEventView<E>) -> (
        DispatchView,
        Seq<EffectView<E>>,
    ) {
        match (self.stage, event) {
            (StageView::Registering, DispatchEventView::Registered { send, recv }) => {
                let recv = recv->0;
                let send_subject = match send {
                    Some(half) => half.subject,
                    None => None,
                };
                match association(recv.subject, self.instance) {
                    Some((recv_subject, instance)) => (
                        DispatchView { stage: StageView::Associating { recv, send }, ..self },
                        seq![EffectView::Associate { recv_subject, send_subject, instance }],
                    ),
                    None => self.guarded(recv, send),
                }
            },
            (StageView::Associating { recv, send }, DispatchEventView::Associated { live }) => {
                if live {
                    self.guarded(recv, send)
                } else {
                    let send_subject = match send {
                        Some(half) => half.subject,
                        None => None,
                    };
                    let plan = crate::guards::cancellations(recv.subject, send_subject);
                    (
                        DispatchView { stage: StageView::Cancelling, ..self },
                        seq![EffectView::CancelNow(plan)],
                    )
                }
            },
            (StageView::Cancelling, DispatchEventView::Cancelled) => self.failed(
                disconnected("Worker removed before request could be sent (tombstoned instance)"@),
            ),
            (StageView::SerializingControl, DispatchEventView::ControlSerialized(result)) => {
                match crate::wire::control_bytes(result) {
                    Err(error) => self.failed(error),
                    Ok(ctrl) => if self.request_type == RequestType::ManyIn {
                        self.encoding(ctrl, None)
                    } else {
                        (
                            DispatchView { stage: StageView::SerializingPayload { ctrl }, ..self },
                            seq![EffectView::SerializePayload],
                        )
                    },
                }
            },
            (
                StageView::SerializingPayload { ctrl },
                DispatchEventView::PayloadSerialized(result),
            ) => {
                match result {
                    Err(error) => self.failed(crate::error::DispatchErrorView::Outside(error)),
                    Ok(data) => self.encoding(ctrl, Some(data)),
                }
            },
            (StageView::Encoding { span_label }, DispatchEventView::Encoded(result)) => {
                match result {
                    Err(error) => self.failed(crate::error::DispatchErrorView::Outside(error)),
                    Ok(buffer) => (
                        DispatchView { stage: StageView::Sending, ..self },
                        seq![EffectView::ObserveQueueTime].push(
                            EffectView::Send {
                                address: self.address,
                                buffer,
                                request_id: self.id,
                                span_label,
                            },
                        ),
                    ),
                }
            },
            (StageView::Sending, DispatchEventView::Sent(result)) => {
                match result {
                    Err(error) => self.failed(crate::error::DispatchErrorView::Outside(error)),
                    Ok(_) => if self.request_type == RequestType::ManyIn {
                        (
                            DispatchView { stage: StageView::AwaitingRequestStream, ..self },
                            seq![EffectView::ObserveSendTime].push(EffectView::AwaitRequestStream),
                        )
                    } else {
                        (
                            DispatchView { stage: StageView::AwaitingResponseStream, ..self },
                            seq![EffectView::ObserveSendTime].push(
                                EffectView::AwaitResponseStream {
                                    wait_label: Some(wait_span_label()),
                                },
                            ),
                        )
                    },
                }
            },
            (StageView::AwaitingRequestStream, DispatchEventView::RequestStream(handshake)) => {
                match handshake {
                    HandshakeView::Ready => (
                        DispatchView { stage: StageView::AwaitingResponseStream, ..self },
                        seq![EffectView::SpawnForwarder].push(
                            EffectView::AwaitResponseStream { wait_label: None },
                        ),
                    ),
                    HandshakeView::Refused(text) => self.failed(
                        refused("Worker dial-in failed for request stream: "@, text),
                    ),
                    HandshakeView::Dropped => self.failed(
                        disconnected("Worker disconnected before request stream was established"@),
                    ),
                }
            },
            (StageView::AwaitingResponseStream, DispatchEventView::ResponseStream(handshake)) => {
                match handshake {
                    HandshakeView::Ready => (
                        self.finished(),
                        seq![EffectView::Deliver { inflight: self.inflight }],
                    ),
                    HandshakeView::Refused(text) => self.failed(
                        refused("Worker generate() failed before response stream: "@, text),
                    ),
                    HandshakeView::Dropped => self.failed(
                        disconnected("Worker disconnected before response stream was established"@),
                    ),
                }
            },
            _ => (self, seq![]),
        }
    }
}

/// Decides, from the subjects of a registration and the addressed instance, which
/// association has to be made before anything is sent. There is none where the receiving
/// half has no subject, or where the request is not addressed to an instance.
pub fn resolve_subjects(
    recv_subject: &Option<String>,
    send_subject: &Option<String>,
    instance: &Option<Instance>,
) -> (ask: Option<(String, Option<String>, EndpointInstanceId)>)
    ensures
        match association(
            crate::text::text_of(*recv_subject),
            crate::instance::instance_of(*instance),
        ) {
            Some((subject, id)) => ask matches Some(a) && a.0@ == subject
                && crate::text::text_of(a.1) == crate::text::text_of(*send_subject) && a.2@
                == id,
            None => ask is None,
        },
        ask is Some <==> recv_subject is Some && instance is Some,
        ask matches Some(a) ==> {
            &&& a.0@ == recv_subject->0@
            &&& a.1 is Some <==> send_subject is Some
            &&& a.1 is Some ==> a.1->0@ == send_subject->0@
            &&& a.2.endpoint@ == instance->0.endpoint@
            &&& a.2.instance_id == instance->0.instance_id
        },
{
    match (recv_subject, instance) {
        (Some(subject), Some(instance)) => {
            let send_subject = match send_subject {
                Some(subject) => Some(subject.clone()),
                None => None,
            };
            Some((subject.clone(), send_subject, instance.endpoint_instance_id()))
        },
        _ => None,
    }
}

fn disconnected_error<E>(message: &str) -> (error: DispatchError<E>)
    ensures
        error@ == disconnected::<E>(message@),
{
    DispatchError::Dynamo(DynamoError::of_type(ErrorType::Disconnected, message.to_string()))
}

fn refused_error<E>(head: &str, text: String) -> (error: DispatchError<E>)
    ensures
        error@ == refused::<E>(head@, text@),
{
    DispatchError::Dynamo(
        DynamoError::of_type(ErrorType::CannotConnect, joined(head, text.as_str())),
    )
}

impl Dispatch {
    /// Starts a dispatch.
    pub fn start<E>(
        request_type: RequestType,
        context: Context<()>,
        address: String,
        instance: Option<Instance>,
    ) -> (start: (Dispatch, Vec<Effect<E>>))
        ensures
            crate::dispatch_laws::is_start(start.0@),
            start.0@.request_type == request_type,
            start.0@.id == context@.id,
            start.0@.metadata == context@.metadata,
            start.0@.address == address@,
            start.0@.instance is Some <==> instance is Some,
            instance is Some ==> {
                &&& start.0@.instance->0.endpoint == instance->0.endpoint@
                &&& start.0@.instance->0.instance_id == instance->0.instance_id
                &&& start.0@.instance->0.address == instance->0.transport@
            },
            start.1@.len() == 2,
            start.1@[0] is IncrementInflight,
            start.1@[1] matches Effect::Register { request_stream, response_stream }
                && request_stream == (request_type == RequestType::ManyIn) && response_stream,
            start.0@ == DispatchView::started(
                request_type,
                context@.id,
                context@.metadata,
                address@,
                crate::instance::instance_of(instance),
            ),
            effects_of(start.1@) == DispatchView::start_effects::<E>(request_type),
    {
        let dispatch = Dispatch {
            request_type,
            context,
            address,
            instance,
            inflight: InflightGuard::new(),
            cancel: None,
            stage: Stage::Registering,
        };
        let mut effects: Vec<Effect<E>> = Vec::new();
        effects.push(Effect::IncrementInflight);
        effects.push(
            Effect::Register {
                request_stream: request_type == RequestType::ManyIn,
                response_stream: true,
            },
        );
        proof {
            assert(effects_of(effects@) =~= DispatchView::start_effects::<E>(request_type));
        }
        (dispatch, effects)
    }

    /// Whether `event` is what this dispatch waits for. A registration that came out in
    /// another shape than the one asked for is not.
    pub fn accepts<E>(&self, event: &DispatchEvent<E>) -> (accepts: bool)
        ensures
            accepts == self@.expects(event@),
    {
        match (&self.stage, event) {
            (Stage::Registering, DispatchEvent::Registered { send, recv }) => {
                send.is_some() == (self.request_type == RequestType::ManyIn) && recv.is_some()
            },
            (Stage::Associating { .. }, DispatchEvent::Associated { .. }) => true,
            (Stage::Cancelling, DispatchEvent::Cancelled) => true,
            (Stage::SerializingControl, DispatchEvent::ControlSerialized(_)) => true,
            (Stage::SerializingPayload { .. }, DispatchEvent::PayloadSerialized(_)) => true,
            (Stage::Encoding { .. }, DispatchEvent::Encoded(_)) => true,
            (Stage::Sending, DispatchEvent::Sent(_)) => true,
            (Stage::AwaitingRequestStream, DispatchEvent::RequestStream(_)) => true,
            (Stage::AwaitingResponseStream, DispatchEvent::ResponseStream(_)) => true,
            _ => false,
        }
    }

    /// Gives up what the dispatch holds, as its drop does: an armed guard has its streams
    /// cancelled, then the gauge goes down. A dispatch that has ended holds nothing.
    pub fn abandon<E>(&mut self) -> (effects: Vec<Effect<E>>)
        ensures
            effects_of(effects@) == old(self)@.release::<E>(),
            final(self)@ == old(self)@.finished(),
    {
        let mut effects: Vec<Effect<E>> = Vec::new();
        let mut cancel: Option<CancelGuard> = None;
        std::mem::swap(&mut cancel, &mut self.cancel);
        if let Some(mut guard) = cancel {
            if guard.is_armed() {
                effects.push(Effect::CancelDetached(guard.on_drop()));
            }
        }
        if self.inflight.decrements_on_drop() {
            effects.push(Effect::DecrementInflight);
        }
        self.inflight.disarm();
        self.stage = Stage::Finished;
        proof {
            assert(effects_of(effects@) =~= old(self)@.release::<E>());
        }
        effects
    }

    fn fail<E>(&mut self, error: DispatchError<E>) -> (effects: Vec<Effect<E>>)
        ensures
            (final(self)@, effects_of(effects@)) == old(self)@.failed(error@),
    {
        let mut effects = self.abandon();
        let ghost released = effects@;
        effects.push(Effect::Fail(error));
        proof {
            assert(effects_of(effects@) =~= effects_of(released).push(
                EffectView::Fail(error@),
            ));
        }
        effects
    }

    fn guard<E>(&mut self, recv: Registration, send: Option<Registration>) -> (effects: Vec<
        Effect<E>,
    >)
        ensures
            (final(self)@, effects_of(effects@)) == old(self)@.guarded::<E>(
                recv@,
                registration_of(send),
            ),
    {
        let (send_info, send_subject) = match send {
            Some(half) => (Some(half.info), half.subject),
            None => (None, None),
        };
        let message = control_message(&self.context, recv.info, send_info);
        self.cancel = Some(CancelGuard::arm(recv.subject, send_subject));
        self.stage = Stage::SerializingControl;
        let mut effects: Vec<Effect<E>> = Vec::new();
        effects.push(Effect::SerializeControl(message));
        proof {
            assert(effects_of(effects@) =~= old(self)@.guarded::<E>(recv@, registration_of(send)).1);
        }
        effects
    }

    fn encode<E>(&mut self, ctrl: Vec<u8>, data: Option<Vec<u8>>) -> (effects: Vec<Effect<E>>)
        ensures
            (final(self)@, effects_of(effects@)) == old(self)@.encoding::<E>(
                ctrl@,
                crate::wire::payload_of(data),
            ),
    {
        let ghost payload = crate::wire::payload_of(data);
        let envelope = build_request_envelope(ctrl, data);
        self.stage = Stage::Encoding { span_label: envelope.span_label };
        let mut effects: Vec<Effect<E>> = Vec::new();
        effects.push(Effect::Encode(envelope.message));
        proof {
            assert(effects_of(effects@) =~= old(self)@.encoding::<E>(ctrl@, payload).1);
        }
        effects
    }

    fn associate_or_guard<E>(&mut self, recv: Registration, send: Option<Registration>) -> (effects:
        Vec<Effect<E>>)
        requires
            old(self)@.stage is Registering,
        ensures
            (final(self)@, effects_of(effects@)) == old(self)@.next::<E>(
                DispatchEventView::Registered { send: registration_of(send), recv: Some(recv@) },
            ),
    {
        let send_subject = match &send {
            Some(half) => match &half.subject {
                Some(subject) => Some(subject.clone()),
                None => None,
            },
            None => None,
        };
        match resolve_subjects(&recv.subject, &send_subject, &self.instance) {
            Some((recv_subject, send_subject, instance)) => {
                self.stage = Stage::Associating { recv, send };
                let mut effects: Vec<Effect<E>> = Vec::new();
                effects.push(Effect::Associate { recv_subject, send_subject, instance });
                proof {
                    let event = DispatchEventView::Registered {
                        send: registration_of(send),
                        recv: Some(recv@),
                    };
                    assert(effects_of(effects@) =~= old(self)@.next::<E>(event).1);
                }
                effects
            },
            None => self.guard(recv, send),
        }
    }

    fn associated<E>(&mut self, recv: Registration, send: Option<Registration>, live: bool) -> (effects:
        Vec<Effect<E>>)
        ensures
            (final(self)@, effects_of(effects@)) == (DispatchView {
                stage: StageView::Associating { recv: recv@, send: registration_of(send) },
                ..old(self)@
            }).next::<E>(DispatchEventView::Associated { live }),
    {
        if live {
            return self.guard(recv, send);
        }
        let send_subject = match send {
            Some(half) => half.subject,
            None => None,
        };
        let plan = cancel_both(recv.subject, send_subject);
        self.stage = Stage::Cancelling;
        let mut effects: Vec<Effect<E>> = Vec::new();
        effects.push(Effect::CancelNow(plan));
        proof {
            assert(effects_of(effects@) =~= seq![
                EffectView::<E>::CancelNow(crate::guards::plan_of(plan@)),
            ]);
        }
        effects
    }

    fn sent<E>(&mut self) -> (effects: Vec<Effect<E>>)
        requires
            old(self)@.stage is Sending,
        ensures
            (final(self)@, effects_of(effects@)) == old(self)@.next::<E>(
                DispatchEventView::Sent(Ok(())),
            ),
    {
        let mut effects: Vec<Effect<E>> = Vec::new();
        effects.push(Effect::ObserveSendTime);
        if self.request_type == RequestType::ManyIn {
            self.stage = Stage::AwaitingRequestStream;
            effects.push(Effect::AwaitRequestStream);
        } else {
            self.stage = Stage::AwaitingResponseStream;
            effects.push(
                Effect::AwaitResponseStream { wait_label: Some("transport.tcp.wait_backend") },
            );
        }
        proof {
            assert(effects_of(effects@) =~= old(self)@.next::<E>(
                DispatchEventView::Sent(Ok(())),
            ).1);
        }
        effects
    }

    fn request_stream<E>(&mut self, handshake: Handshake) -> (effects: Vec<Effect<E>>)
        requires
            old(self)@.stage is AwaitingRequestStream,
        ensures
            (final(self)@, effects_of(effects@)) == old(self)@.next::<E>(
                DispatchEventView::RequestStream(handshake@),
            ),
    {
        match handshake {
            Handshake::Ready => {
                self.stage = Stage::AwaitingResponseStream;
                let mut effects: Vec<Effect<E>> = Vec::new();
                effects.push(Effect::SpawnForwarder);
                effects.push(Effect::AwaitResponseStream { wait_label: None });
                proof {
                    assert(effects_of(effects@) =~= old(self)@.next::<E>(
                        DispatchEventView::RequestStream(handshake@),
                    ).1);
                }
                effects
            },
            Handshake::Refused(text) => self.fail(
                refused_error("Worker dial-in failed for request stream: ", text),
            ),
            Handshake::Dropped => self.fail(
                disconnected_error("Worker disconnected before request stream was established"),
            ),
        }
    }

    fn response_stream<E>(&mut self, handshake: Handshake) -> (effects: Vec<Effect<E>>)
        requires
            old(self)@.stage is AwaitingResponseStream,
        ensures
            (final(self)@, effects_of(effects@)) == old(self)@.next::<E>(
                DispatchEventView::ResponseStream(handshake@),
            ),
    {
        match handshake {
            Handshake::Ready => {
                if let Some(mut guard) = self.cancel.take() {
                    guard.disarm();
                }
                let inflight = self.inflight.hand_over();
                self.stage = Stage::Finished;
                let mut effects: Vec<Effect<E>> = Vec::new();
                effects.push(Effect::Deliver { inflight });
                proof {
                    assert(effects_of(effects@) =~= old(self)@.next::<E>(
                        DispatchEventView::ResponseStream(handshake@),
                    ).1);
                }
                effects
            },
            Handshake::Refused(text) => self.fail(
                refused_error("Worker generate() failed before response stream: ", text),
            ),
            Handshake::Dropped => self.fail(
                disconnected_error("Worker disconnected before response stream was established"),
            ),
        }
    }

    /// Takes in what came of the last effect, and says what has to be done next.
    pub fn step<E>(&mut self, event: DispatchEvent<E>) -> (effects: Vec<Effect<E>>)
        requires
            old(self)@.expects(event@),
        ensures
            (final(self)@, effects_of(effects@)) == old(self)@.next(event@),
    {
        match event {
            DispatchEvent::Registered { send, recv } => {
                match recv {
                    Some(recv) => self.associate_or_guard(recv, send),
                    None => Vec::new(),
                }
            },
            DispatchEvent::Associated { live } => {
                let mut stage = Stage::Finished;
                std::mem::swap(&mut stage, &mut self.stage);
                match stage {
                    Stage::Associating { recv, send } => self.associated(recv, send, live),
                    _ => Vec::new(),
                }
            },
            DispatchEvent::Cancelled => self.fail(
                disconnected_error(
                    "Worker removed before request could be sent (tombstoned instance)",
                ),
            ),
            DispatchEvent::ControlSerialized(result) => {
                match serialize_control_message(result) {
                    Err(error) => self.fail(error),
                    Ok(ctrl) => {
                        if self.request_type == RequestType::ManyIn {
                            self.encode(ctrl, None)
                        } else {
                            self.stage = Stage::SerializingPayload { ctrl };
                            let mut effects: Vec<Effect<E>> = Vec::new();
                            effects.push(Effect::SerializePayload);
                            proof {
                                assert(effects_of(effects@) =~= old(self)@.next(event@).1);
                            }
                            effects
                        }
                    },
                }
            },
            DispatchEvent::PayloadSerialized(result) => {
                match result {
                    Err(error) => self.fail(DispatchError::Outside(error)),
                    Ok(data) => {
                        let mut stage = Stage::Finished;
                        std::mem::swap(&mut stage, &mut self.stage);
                        match stage {
                            Stage::SerializingPayload { ctrl } => self.encode(ctrl, Some(data)),
                            _ => Vec::new(),
                        }
                    },
                }
            },
            DispatchEvent::Encoded(result) => {
                match result {
                    Err(error) => self.fail(DispatchError::Outside(error)),
                    Ok(buffer) => {
                        let mut stage = Stage::Sending;
                        std::mem::swap(&mut stage, &mut self.stage);
                        let mut effects: Vec<Effect<E>> = Vec::new();
                        if let Stage::Encoding { span_label } = stage {
                            effects.push(Effect::ObserveQueueTime);
                            effects.push(
                                Effect::Send {
                                    address: self.address.clone(),
                                    buffer,
                                    request_id: self.context.id().to_string(),
                                    span_label,
                                },
                            );
                        }
                        proof {
                            assert(effects_of(effects@) =~= old(self)@.next(event@).1);
                        }
                        effects
                    },
                }
            },
            DispatchEvent::Sent(result) => {
                match result {
                    Err(error) => self.fail(DispatchError::Outside(error)),
                    Ok(_) => self.sent(),
                }
            },
            DispatchEvent::RequestStream(handshake) => self.request_stream(handshake),
            DispatchEvent::ResponseStream(handshake) => self.response_stream(handshake),
        }
    }
}

} // verus!
