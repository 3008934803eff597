//! What travels with a request through the pipeline: its id, its metadata, its payload.

use vstd::prelude::*;

use crate::request_stream::RequestStream;
use crate::string_map::StringMap;

verus! {

/// A payload together with the id and the metadata of the request it belongs to.
pub struct Context<T> {
    current: T,
    id: String,
    metadata: StringMap,
}

/// The plain value of a [`Context`].
pub struct ContextView<T> {
    pub current: T,
    pub id: Seq<char>,
    pub metadata: Map<Seq<char>, Seq<char>>,
}

impl<T> View for Context<T> {
    type V = ContextView<T>;

    closed spec fn view(&self) -> ContextView<T> {
        ContextView { current: self.current, id: self.id@, metadata: self.metadata@ }
    }
}

impl<T> Context<T> {
    pub fn new(current: T, id: String, metadata: StringMap) -> (context: Context<T>)
        ensures
            context@ == (ContextView { current, id: id@, metadata: metadata@ }),
    {
        Context { current, id, metadata }
    }

    /// The id of the request.
    pub fn id(&self) -> (id: &str)
        ensures
            id@ == self@.id,
    {
        self.id.as_str()
    }

    /// The payload.
    pub fn current(&self) -> (current: &T)
        ensures
            *current == self@.current,
    {
        &self.current
    }

    /// The metadata of the request.
    pub fn metadata(&self) -> (metadata: &StringMap)
        ensures
            metadata@ == self@.metadata,
    {
        &self.metadata
    }

    /// Takes the payload out and puts `new_current` in its place; id and metadata stay.
    pub fn transfer<U>(self, new_current: U) -> (parts: (T, Context<U>))
        ensures
            parts.0 == self@.current,
            parts.1@ == (ContextView {
                current: new_current,
                id: self@.id,
                metadata: self@.metadata,
            }),
    {
        (self.current, Context { current: new_current, id: self.id, metadata: self.metadata })
    }

    /// Parts the payload from the rest.
    pub fn into_parts(self) -> (parts: (T, Context<()>))
        ensures
            parts.0 == self@.current,
            parts.1@ == (ContextView { current: (), id: self@.id, metadata: self@.metadata }),
    {
        self.transfer(())
    }
}

/// Input of a pipeline that takes one value.
pub type SingleIn<T> = Context<T>;

/// Input of a pipeline that takes a stream of values.
pub type ManyIn<T> = Context<RequestStream<T>>;

/// The id of a request and the controls by which it is stopped and killed.
pub struct EngineContext<C> {
    pub id: String,
    pub controls: C,
}

/// Output of an engine that answers with one value, tied to the request it answers.
pub struct EngineUnary<T, C> {
    value: T,
    context: EngineContext<C>,
}

/// The parts of an [`EngineUnary`].
pub struct EngineUnaryView<T, C> {
    pub value: T,
    pub context: EngineContext<C>,
}

impl<T, C> View for EngineUnary<T, C> {
    type V = EngineUnaryView<T, C>;

    closed spec fn view(&self) -> EngineUnaryView<T, C> {
        EngineUnaryView { value: self.value, context: self.context }
    }
}

/// Output of an engine that answers with a stream, tied to the request it answers.
pub struct EngineStream<T, C> {
    stream: T,
    context: EngineContext<C>,
}

/// The parts of an [`EngineStream`].
pub struct EngineStreamView<T, C> {
    pub stream: T,
    pub context: EngineContext<C>,
}

impl<T, C> View for EngineStream<T, C> {
    type V = EngineStreamView<T, C>;

    closed spec fn view(&self) -> EngineStreamView<T, C> {
        EngineStreamView { stream: self.stream, context: self.context }
    }
}

/// Output of a pipeline that returns a single value.
pub type SingleOut<T, C> = EngineUnary<T, C>;

/// Output of a pipeline that returns many values.
pub type ManyOut<T, C> = EngineStream<T, C>;

impl<T, C> EngineUnary<T, C> {
    pub fn new(value: T, context: EngineContext<C>) -> (unary: EngineUnary<T, C>)
        ensures
            unary@ == (EngineUnaryView { value, context }),
    {
        EngineUnary { value, context }
    }

    /// The context of the request that is answered.
    pub fn context(&self) -> (context: &EngineContext<C>)
        ensures
            *context == self@.context,
    {
        &self.context
    }

    /// Parts the value from the context.
    pub fn into_parts(self) -> (parts: (T, EngineContext<C>))
        ensures
            parts == (self@.value, self@.context),
    {
        (self.value, self.context)
    }
}

impl<T, C> EngineStream<T, C> {
    pub fn new(stream: T, context: EngineContext<C>) -> (out: EngineStream<T, C>)
        ensures
            out@ == (EngineStreamView { stream, context }),
    {
        EngineStream { stream, context }
    }

    /// The context of the request that is answered.
    pub fn context(&self) -> (context: &EngineContext<C>)
        ensures
            *context == self@.context,
    {
        &self.context
    }

    /// Parts the stream from the context.
    pub fn into_parts(self) -> (parts: (T, EngineContext<C>))
        ensures
            parts == (self@.stream, self@.context),
    {
        (self.stream, self.context)
    }
}

/// Input or output of a pipeline: it knows the request it belongs to.
pub trait PipelineIO: crate::sealed::Connectable {
    /// The id of the request.
    spec fn request_id(&self) -> Seq<char>;

    /// The id of the request, as text of its own.
    fn id(&self) -> (id: String)
        ensures
            id@ == self.request_id(),
    ;
}

impl<T> PipelineIO for Context<T> {
    open spec fn request_id(&self) -> Seq<char> {
        self@.id
    }

    fn id(&self) -> (id: String) {
        self.id.clone()
    }
}

impl<T, C> PipelineIO for EngineUnary<T, C> {
    open spec fn request_id(&self) -> Seq<char> {
        self@.context.id@
    }

    fn id(&self) -> (id: String)
        ensures
            id == self@.context.id,
    {
        self.context.id.clone()
    }
}

impl<T, C> PipelineIO for EngineStream<T, C> {
    open spec fn request_id(&self) -> Seq<char> {
        self@.context.id@
    }

    fn id(&self) -> (id: String)
        ensures
            id == self@.context.id,
    {
        self.context.id.clone()
    }
}

/// Each end of a pipeline names the request it belongs to: an input by the id of its
/// context, an answer by the id in the context of the request that it answers.
pub proof fn law_ends_name_their_request<T, C>(
    input: Context<T>,
    unary: EngineUnary<T, C>,
    stream: EngineStream<T, C>,
)
    ensures
        input.request_id() == input@.id,
        unary.request_id() == unary@.context.id@,
        stream.request_id() == stream@.context.id@,
{
}

/// Something that happened to a request.
#[derive(Debug)]
pub struct Event {
    pub id: String,
}

impl Clone for Event {
    fn clone(&self) -> (event: Event)
        ensures
            event == *self,
    {
        Event { id: self.id.clone() }
    }
}

} // verus!
