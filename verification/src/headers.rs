//! The headers that go along with a request.

use vstd::prelude::*;

use crate::string_map::StringMap;
use crate::text::decimal;

verus! {

/// The headers of a request: those of the trace, then its id and the time of sending, which
/// hold whatever the trace says.
pub open spec fn headers_of(
    trace: Map<Seq<char>, Seq<char>>,
    request_id: Seq<char>,
    send_ts_ns: nat,
) -> Map<Seq<char>, Seq<char>> {
    trace.insert("request-id"@, request_id).insert(
        "x-frontend-send-ts-ns"@,
        crate::text::digits(send_ts_ns),
    )
}

/// Builds the headers of a request. `trace` lists the headers that carry its trace on; of
/// two with one name the later one holds.
pub fn request_headers(trace: Vec<(String, String)>, request_id: &str, send_ts_ns: u64) -> (headers:
    StringMap)
    ensures
        headers@ == headers_of(
            crate::string_map::pairs_as_map(trace@),
            request_id@,
            send_ts_ns as nat,
        ),
{
    let mut headers = StringMap::from_pairs(trace);
    headers.insert("request-id".to_string(), request_id.to_string());
    headers.insert("x-frontend-send-ts-ns".to_string(), decimal(send_ts_ns));
    headers
}

/// The time of sending: the low 64 bits of the nanoseconds since the epoch, and zero on a
/// clock that stands before the epoch.
pub fn frontend_send_ts_ns(since_epoch_ns: Option<u128>) -> (send_ts_ns: u64)
    ensures
        send_ts_ns == (match since_epoch_ns {
            Some(nanos) => nanos as nat % 0x1_0000_0000_0000_0000,
            None => 0nat,
        }),
{
    match since_epoch_ns {
        Some(nanos) => {
            assert(nanos as u64 == nanos % 0x1_0000_0000_0000_0000) by (bit_vector);
            #[verifier::truncate]
            (nanos as u64)
        },
        None => 0,
    }
}

/// Whatever headers a trace brings, the worker reads the request's own id and the time of
/// sending; every other header of the trace arrives as it is.
pub proof fn law_own_headers_hold(
    trace: Map<Seq<char>, Seq<char>>,
    request_id: Seq<char>,
    send_ts_ns: nat,
    name: Seq<char>,
)
    ensures
        ({
            let headers = headers_of(trace, request_id, send_ts_ns);
            &&& headers.dom().contains("request-id"@)
            &&& headers["request-id"@] == request_id
            &&& headers.dom().contains("x-frontend-send-ts-ns"@)
            &&& headers["x-frontend-send-ts-ns"@] == crate::text::digits(send_ts_ns)
            &&& name != "request-id"@ && name != "x-frontend-send-ts-ns"@ ==> {
                &&& headers.dom().contains(name) == trace.dom().contains(name)
                &&& headers[name] == trace[name]
            }
        }),
{
    reveal_strlit("request-id");
    reveal_strlit("x-frontend-send-ts-ns");
    assert("request-id"@.len() != "x-frontend-send-ts-ns"@.len());
}

} // verus!
