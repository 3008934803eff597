# request_plane

The addressed request plane: a request is sent to one worker instance, the worker dials
back, and its answer streams in. `src/` holds what a dispatch asks for, event by event, what
its streams yield and what its guards give back, written in Verus and proved against its
contracts.

| module | what it decides |
|---|---|
| `router` | how a unary and a streaming dispatch start |
| `dispatch` | what a dispatch registers, checks, sends, awaits and releases, event by event |
| `dispatch_laws` | what holds of every run of a dispatch |
| `forwarder` | how the input of a streaming request is pumped to the worker |
| `response` | which items the frames of a response yield, how its end is reported, what the dropped stream gives back |
| `guards` | what a dropped dispatch gives back |
| `wire`, `codec`, `headers` | control message, envelope and headers of a request |
| `request`, `request_stream`, `context`, `sealed`, `instance` | the values that travel |
| `error`, `string_map`, `text` | what the others are built from |

`app/` performs the effects: it registers streams, reads their subjects out of the text of
a connection, serialises, sends, waits and measures. It also picks, of the things that a
forwarder can wait for, the one that comes first. It is ordinary Rust on tokio and serde.

One outside type appears in contracts, `bytes::Bytes`. That a buffer made from a vector
holds the vector's bytes is taken from the `bytes` crate and not proved here.
