//! The router that dispatches addressed requests.

use std::sync::Arc;

use vstd::prelude::*;

use crate::context::{ManyIn, SingleIn};
use crate::dispatch::{Dispatch, Effect};
use crate::error::DynamoError;
use crate::instance::Instance;
use crate::request::AddressedRequest;
use crate::wire::RequestType;

verus! {

/// Dispatches requests: they leave by the client of the request plane, and their streams
/// come in by the response transport.
pub struct AddressedPushRouter<C, S> {
    req_client: C,
    resp_transport: S,
}

impl<C, S> AddressedPushRouter<C, S> {
    pub closed spec fn client(&self) -> C {
        self.req_client
    }

    pub closed spec fn transport(&self) -> S {
        self.resp_transport
    }

    /// A router over a client and a transport.
    pub fn new(req_client: C, resp_transport: S) -> (router: Result<
        Arc<AddressedPushRouter<C, S>>,
        DynamoError,
    >)
        ensures
            router matches Ok(r) && r.client() == req_client && r.transport() == resp_transport,
    {
        Ok(Arc::new(AddressedPushRouter { req_client, resp_transport }))
    }

    /// The client that requests leave by.
    pub fn req_client(&self) -> (client: &C)
        ensures
            *client == self.client(),
    {
        &self.req_client
    }

    /// The transport that streams come in by.
    pub fn resp_transport(&self) -> (transport: &S)
        ensures
            *transport == self.transport(),
    {
        &self.resp_transport
    }

    /// Starts the dispatch of a unary request. Hands the payload back, which is serialised
    /// when the dispatch asks for it.
    pub fn generate<T, E>(&self, request: SingleIn<AddressedRequest<T>>) -> (start: (
        T,
        Dispatch,
        Vec<Effect<E>>,
    ))
        ensures
            start.0 == request@.current@.request,
            crate::dispatch_laws::is_start(start.1@),
            start.1@.request_type == RequestType::SingleIn,
            start.1@.id == request@.id,
            start.1@.metadata == request@.metadata,
            start.1@.address == request@.current@.address,
            start.1@.instance == request@.current@.instance,
            start.2@.len() == 2,
            start.2@[0] is IncrementInflight,
            start.2@[1] matches Effect::Register { request_stream, response_stream }
                && !request_stream && response_stream,
            start.1@ == crate::dispatch::DispatchView::started(
                RequestType::SingleIn,
                request@.id,
                request@.metadata,
                request@.current@.address,
                request@.current@.instance,
            ),
            crate::dispatch::effects_of(start.2@) == crate::dispatch::DispatchView::start_effects::<
                E,
            >(RequestType::SingleIn),
    {
        let (addressed, context) = request.transfer(());
        let (payload, address, instance) = addressed.into_parts();
        let (dispatch, effects) = Dispatch::start(
            RequestType::SingleIn,
            context,
            address,
            instance,
        );
        (payload, dispatch, effects)
    }

    /// Starts the dispatch of a streaming request to an instance at an address. Hands the
    /// input back, which is forwarded when the dispatch asks for it. The input must not have
    /// been taken before.
    pub fn generate_bidirectional<T, E>(
        &self,
        instance: Instance,
        address: String,
        input: ManyIn<T>,
    ) -> (start: (T, Dispatch, Vec<Effect<E>>))
        requires
            input@.current@ is Some,
        ensures
            Some(start.0) == input@.current@,
            crate::dispatch_laws::is_start(start.1@),
            start.1@.request_type == RequestType::ManyIn,
            start.1@.id == input@.id,
            start.1@.metadata == input@.metadata,
            start.1@.address == address@,
            start.1@.instance is Some,
            start.1@.instance->0.endpoint == instance.endpoint@,
            start.1@.instance->0.instance_id == instance.instance_id,
            start.1@.instance->0.address == instance.transport@,
            start.2@.len() == 2,
            start.2@[0] is IncrementInflight,
            start.2@[1] matches Effect::Register { request_stream, response_stream }
                && request_stream && response_stream,
            start.1@ == crate::dispatch::DispatchView::started(
                RequestType::ManyIn,
                input@.id,
                input@.metadata,
                address@,
                Some(instance@),
            ),
            crate::dispatch::effects_of(start.2@) == crate::dispatch::DispatchView::start_effects::<
                E,
            >(RequestType::ManyIn),
    {
        let (mut request_stream, context) = input.into_parts();
        let stream = request_stream.take().unwrap();
        let (dispatch, effects) = Dispatch::start(
            RequestType::ManyIn,
            context,
            address,
            Some(instance),
        );
        (stream, dispatch, effects)
    }
}

} // verus!
