//! The addressed request plane: how one request reaches one worker instance and
//! how the worker's response stream comes back.
//!
//! What a dispatch asks for, event by event, what its streams yield and what its guards
//! give back stands in this library and is proved against its contracts. Sockets, timers,
//! the codec and the serialisers live outside of it: they perform the effects that
//! [`dispatch::Dispatch`], [`forwarder::Forwarder`] and [`response::ResponseFilter`] ask
//! for, and report what came of them. What subject the text of a connection names is
//! likewise read outside and reported.

pub mod codec;
pub mod context;
pub mod dispatch;
pub mod dispatch_history;
pub mod dispatch_laws;
pub mod error;
pub mod forwarder;
pub mod guards;
pub mod headers;
pub mod instance;
pub mod plain_values;
pub mod request;
pub mod request_stream;
pub mod response;
pub mod router;
mod sealed;
pub mod string_map;
pub mod text;
pub mod wire;
