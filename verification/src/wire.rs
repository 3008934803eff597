//! What a dispatch puts on the wire: the control message and its envelope.

use vstd::prelude::*;
use vstd::string::*;

use crate::codec::TwoPartMessage;
use crate::context::Context;
use crate::error::{DispatchError, PipelineError};
use crate::string_map::StringMap;
use crate::text::decimal;

verus! {

/// The most bytes that a serialised control message may have.
pub const CONTROL_MESSAGE_MAX_BYTES: usize = 128 * 1024;

/// How many values a request brings.
#[derive(Clone, Copy, Debug, PartialEq, Eq, Structural)]
pub enum RequestType {
    /// One, in the data part of the envelope.
    SingleIn,
    /// A stream of them, on a connection of its own.
    ManyIn,
}

/// How many values answer a request.
#[derive(Clone, Copy, Debug, PartialEq, Eq, Structural)]
pub enum ResponseType {
    SingleOut,
    ManyOut,
}

/// How a worker dials back: the kind of transport, and what that transport needs to know.
#[derive(Debug)]
pub struct ConnectionInfo {
    pub transport: String,
    pub info: String,
}

/// The plain value of a [`ConnectionInfo`].
pub struct ConnectionInfoView {
    pub transport: Seq<char>,
    pub info: Seq<char>,
}

impl View for ConnectionInfo {
    type V = ConnectionInfoView;

    open spec fn view(&self) -> ConnectionInfoView {
        ConnectionInfoView { transport: self.transport@, info: self.info@ }
    }
}

/// The plain value of an optional [`ConnectionInfo`].
pub open spec fn connection_of(info: Option<ConnectionInfo>) -> Option<ConnectionInfoView> {
    match info {
        Some(info) => Some(info@),
        None => None,
    }
}

/// What a worker is told about a request.
pub struct RequestControlMessage {
    pub id: String,
    pub request_type: RequestType,
    pub response_type: ResponseType,
    pub connection_info: ConnectionInfo,
    pub metadata: StringMap,
    pub frontend_send_ts_ns: Option<u64>,
    pub request_stream_connection_info: Option<ConnectionInfo>,
}

/// The plain value of a [`RequestControlMessage`].
pub struct ControlView {
    pub id: Seq<char>,
    pub request_type: RequestType,
    pub response_type: ResponseType,
    pub connection_info: ConnectionInfoView,
    pub metadata: Map<Seq<char>, Seq<char>>,
    pub frontend_send_ts_ns: Option<u64>,
    pub request_stream_connection_info: Option<ConnectionInfoView>,
}

impl View for RequestControlMessage {
    type V = ControlView;

    open spec fn view(&self) -> ControlView {
        ControlView {
            id: self.id@,
            request_type: self.request_type,
            response_type: self.response_type,
            connection_info: self.connection_info@,
            metadata: self.metadata@,
            frontend_send_ts_ns: self.frontend_send_ts_ns,
            request_stream_connection_info: connection_of(self.request_stream_connection_info),
        }
    }
}

/// The control message of a request: it streams its input if and only if there is a
/// connection for that, its answer is always streamed, and the time of sending is left to
/// the headers.
pub open spec fn control_of(
    id: Seq<char>,
    metadata: Map<Seq<char>, Seq<char>>,
    recv_conn_info: ConnectionInfoView,
    send_conn_info: Option<ConnectionInfoView>,
) -> ControlView {
    ControlView {
        id,
        request_type: if send_conn_info is Some {
            RequestType::ManyIn
        } else {
            RequestType::SingleIn
        },
        response_type: ResponseType::ManyOut,
        connection_info: recv_conn_info,
        metadata,
        frontend_send_ts_ns: None,
        request_stream_connection_info: send_conn_info,
    }
}

/// Builds the control message of a request.
pub fn control_message<T>(
    context: &Context<T>,
    recv_conn_info: ConnectionInfo,
    send_conn_info: Option<ConnectionInfo>,
) -> (message: RequestControlMessage)
    ensures
        message@ == control_of(
            context@.id,
            context@.metadata,
            recv_conn_info@,
            connection_of(send_conn_info),
        ),
        message.id@ == context@.id,
        message.metadata@ == context@.metadata,
        message.request_type == (if send_conn_info is Some {
            RequestType::ManyIn
        } else {
            RequestType::SingleIn
        }),
        message.response_type == ResponseType::ManyOut,
        message.connection_info == recv_conn_info,
        message.request_stream_connection_info == send_conn_info,
        message.frontend_send_ts_ns is None,
{
    let request_type = if send_conn_info.is_some() {
        RequestType::ManyIn
    } else {
        RequestType::SingleIn
    };
    RequestControlMessage {
        id: context.id().to_string(),
        request_type,
        response_type: ResponseType::ManyOut,
        connection_info: recv_conn_info,
        metadata: context.metadata().duplicate(),
        frontend_send_ts_ns: None,
        request_stream_connection_info: send_conn_info,
    }
}

/// What is said of a control message of `len` bytes, where that is too many.
pub open spec fn too_large_text(len: nat) -> Seq<char> {
    "request control message too large: "@ + crate::text::digits(len)
        + " bytes exceeds limit "@ + crate::text::digits(CONTROL_MESSAGE_MAX_BYTES as nat)
}

/// What becomes of a control message that the serialiser has turned into `serialized`.
pub open spec fn control_bytes<E>(serialized: Result<Seq<u8>, E>) -> Result<
    Seq<u8>,
    crate::error::DispatchErrorView<E>,
> {
    match serialized {
        Err(error) => Err(crate::error::DispatchErrorView::Outside(error)),
        Ok(bytes) => if bytes.len() <= CONTROL_MESSAGE_MAX_BYTES {
            Ok(bytes)
        } else {
            Err(
                crate::error::DispatchErrorView::Pipeline(
                    crate::error::PipelineErrorView::Generic(too_large_text(bytes.len())),
                ),
            )
        },
    }
}

/// The plain value of what a serialiser returned.
pub open spec fn serialized_of<E>(serialized: Result<Vec<u8>, E>) -> Result<Seq<u8>, E> {
    match serialized {
        Ok(bytes) => Ok(bytes@),
        Err(error) => Err(error),
    }
}

/// Completes the serialisation of a control message: passes on what the serialiser made of
/// it, or its error, and refuses a message that is over the limit.
pub fn serialize_control_message<E>(serialized: Result<Vec<u8>, E>) -> (ctrl: Result<
    Vec<u8>,
    DispatchError<E>,
>)
    ensures
        match control_bytes(serialized_of(serialized)) {
            Ok(bytes) => ctrl matches Ok(v) && v@ == bytes,
            Err(error) => ctrl matches Err(e) && e@ == error,
        },
        ctrl is Ok <==> serialized is Ok && serialized->Ok_0@.len() <= 131072,
        ctrl matches Ok(bytes) ==> serialized == Ok::<Vec<u8>, E>(bytes),
        serialized matches Err(error) ==> ctrl == Err::<Vec<u8>, DispatchError<E>>(
            DispatchError::Outside(error),
        ),
        serialized is Ok && ctrl is Err ==> ctrl->Err_0 is Pipeline,
{
    match serialized {
        Err(error) => Err(DispatchError::Outside(error)),
        Ok(bytes) => {
            if bytes.len() > CONTROL_MESSAGE_MAX_BYTES {
                let mut text = "request control message too large: ".to_string();
                text.append(decimal(bytes.len() as u64).as_str());
                text.append(" bytes exceeds limit ");
                text.append(decimal(CONTROL_MESSAGE_MAX_BYTES as u64).as_str());
                Err(DispatchError::Pipeline(PipelineError::Generic(text)))
            } else {
                Ok(bytes)
            }
        },
    }
}

/// The plain value of an optional payload.
pub open spec fn payload_of(data: Option<Vec<u8>>) -> Option<Seq<u8>> {
    match data {
        Some(data) => Some(data@),
        None => None,
    }
}

/// The label of the span that the write of a request to the wire is wrapped in.
pub open spec fn send_span_label() -> Seq<char> {
    "transport.tcp.send"@
}

/// A message for the codec, and the label of the span that its write to the wire is wrapped
/// in.
pub struct RequestEnvelope {
    pub message: TwoPartMessage,
    pub span_label: &'static str,
}

/// Puts a control message and, where there is one, a payload into an envelope: header only
/// without a payload, header and data with one. Says under which label it is to be sent.
pub fn build_request_envelope(ctrl: Vec<u8>, data: Option<Vec<u8>>) -> (envelope: RequestEnvelope)
    ensures
        envelope.message@.header == ctrl@,
        envelope.message@.data == payload_of(data),
        envelope.span_label@ == send_span_label(),
        envelope.span_label@ == "transport.tcp.send"@,
        crate::codec::bytes_content(envelope.message.header) == ctrl@,
        envelope.message.data is Some <==> data is Some,
        data is Some ==> crate::codec::bytes_content(envelope.message.data->0) == data->0@,
{
    let message = match data {
        Some(data) => TwoPartMessage::from_parts(ctrl, data),
        None => TwoPartMessage::from_header(ctrl),
    };
    RequestEnvelope { message, span_label: "transport.tcp.send" }
}

/// A control message is refused if and only if it could not be serialised, or came out with
/// more than 128 KiB. The refusal is the serialiser's own error, or names the size and the
/// limit; a message that is not refused is passed on byte for byte.
pub proof fn law_control_message_is_limited<E>(serialized: Result<Seq<u8>, E>)
    ensures
        serialized is Err ==> control_bytes(serialized) == Err::<
            Seq<u8>,
            crate::error::DispatchErrorView<E>,
        >(crate::error::DispatchErrorView::Outside(serialized->Err_0)),
        serialized is Ok && serialized->Ok_0.len() <= 131072 ==> control_bytes(serialized) == Ok::<
            Seq<u8>,
            crate::error::DispatchErrorView<E>,
        >(serialized->Ok_0),
        serialized is Ok && serialized->Ok_0.len() > 131072 ==> control_bytes(serialized) == Err::<
            Seq<u8>,
            crate::error::DispatchErrorView<E>,
        >(
            crate::error::DispatchErrorView::Pipeline(
                crate::error::PipelineErrorView::Generic(
                    "request control message too large: "@ + crate::text::digits(
                        serialized->Ok_0.len(),
                    ) + " bytes exceeds limit "@ + "131072"@,
                ),
            ),
        ),
{
    reveal_strlit("131072");
    reveal_with_fuel(crate::text::digits, 6);
    assert(crate::text::digits(131072) =~= "131072"@);
}

/// A control message says that the input is a stream if and only if it says where to read
/// it; it says that the answer is one; and it hands on the id, the metadata and both
/// connections as they are, each in its own place.
pub proof fn law_control_message_hands_on_what_it_is_given(
    id: Seq<char>,
    metadata: Map<Seq<char>, Seq<char>>,
    recv: ConnectionInfoView,
    send: Option<ConnectionInfoView>,
)
    ensures
        control_of(id, metadata, recv, send).id == id,
        control_of(id, metadata, recv, send).metadata == metadata,
        control_of(id, metadata, recv, send).connection_info == recv,
        control_of(id, metadata, recv, send).request_stream_connection_info == send,
        control_of(id, metadata, recv, send).request_type == RequestType::ManyIn <==> send is Some,
        control_of(id, metadata, recv, send).response_type == ResponseType::ManyOut,
        control_of(id, metadata, recv, send).frontend_send_ts_ns is None,
{
}

} // verus!
