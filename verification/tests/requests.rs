use request_plane::context::{
    Context, EngineContext, EngineStream, EngineUnary, Event, PipelineIO,
};
use request_plane::dispatch::Effect;
use request_plane::headers::{frontend_send_ts_ns, request_headers};
use request_plane::instance::{Instance, TransportAddress};
use request_plane::request::AddressedRequest;
use request_plane::request_stream::RequestStream;
use request_plane::router::AddressedPushRouter;
use request_plane::string_map::StringMap;
use request_plane::text::{decimal, joined};

fn instance() -> Instance {
    Instance {
        endpoint: "generate".to_string(),
        instance_id: 42,
        transport: TransportAddress::new("host:1".to_string()),
    }
}

#[test]
fn addressed_requests_carry_their_target() {
    let (request, address, none) = AddressedRequest::new(5, "a".to_string()).into_parts();
    assert_eq!((request, address.as_str()), (5, "a"));
    assert!(none.is_none());

    let (_, address, some) =
        AddressedRequest::with_instance(5, "b".to_string(), instance()).into_parts();
    assert_eq!(address, "b");
    assert_eq!(some.unwrap().instance_id, 42);

    let (_, address, some) = AddressedRequest::for_instance(5, instance()).into_parts();
    assert_eq!(address, "host:1");
    let id = some.unwrap().endpoint_instance_id();
    assert_eq!((id.endpoint.as_str(), id.instance_id), ("generate", 42));
}

#[test]
fn own_headers_override_the_trace() {
    let trace = vec![
        ("traceparent".to_string(), "00-a-b-01".to_string()),
        ("request-id".to_string(), "spoofed".to_string()),
    ];
    let headers = request_headers(trace, "req-1", 1700000000000000001);
    assert_eq!(headers.get("traceparent").unwrap(), "00-a-b-01");
    assert_eq!(headers.get("request-id").unwrap(), "req-1");
    assert_eq!(
        headers.get("x-frontend-send-ts-ns").unwrap(),
        "1700000000000000001"
    );
    assert!(headers.get("tracestate").is_none());
    assert_eq!(headers.into_pairs().len(), 3);
}

#[test]
fn send_time_keeps_the_low_bits() {
    assert_eq!(frontend_send_ts_ns(None), 0);
    assert_eq!(frontend_send_ts_ns(Some(17)), 17);
    assert_eq!(frontend_send_ts_ns(Some(u64::MAX as u128)), u64::MAX);
    assert_eq!(frontend_send_ts_ns(Some(u64::MAX as u128 + 3)), 2);
}

#[test]
fn numbers_are_written_in_decimal() {
    assert_eq!(decimal(0), "0");
    assert_eq!(decimal(9), "9");
    assert_eq!(decimal(10), "10");
    assert_eq!(decimal(131072), "131072");
    assert_eq!(decimal(u64::MAX), "18446744073709551615");
    assert_eq!(joined("a: ", "b"), "a: b");
}

#[test]
fn string_map_keeps_the_last_value_of_a_key() {
    let mut map = StringMap::new();
    map.insert("a".to_string(), "1".to_string());
    map.insert("b".to_string(), "2".to_string());
    map.insert("a".to_string(), "3".to_string());
    assert_eq!(map.get("a").unwrap(), "3");
    assert_eq!(map.get("b").unwrap(), "2");
    assert!(map.get("c").is_none());
    assert_eq!(
        map.duplicate().into_pairs(),
        vec![
            ("a".to_string(), "3".to_string()),
            ("b".to_string(), "2".to_string())
        ]
    );
}

#[test]
fn string_map_keeps_keys_as_they_first_came() {
    let pairs = [("b", "1"), ("a", "2"), ("b", "3"), ("c", "4")]
        .iter()
        .map(|(key, value)| (key.to_string(), value.to_string()))
        .collect();
    let keys: Vec<String> = StringMap::from_pairs(pairs)
        .into_pairs()
        .into_iter()
        .map(|(key, _)| key)
        .collect();
    assert_eq!(keys, ["b", "a", "c"]);
}

#[test]
fn pipeline_ends_know_their_request() {
    let context = Context::new(1, "req-1".to_string(), StringMap::new());
    assert_eq!(PipelineIO::id(&context), "req-1");
    assert_eq!(*context.current(), 1);
    let (payload, rest) = context.transfer("next");
    assert_eq!(payload, 1);
    assert_eq!(rest.id(), "req-1");
    assert_eq!(rest.into_parts().0, "next");

    let context = EngineContext {
        id: "req-2".to_string(),
        controls: 'a',
    };
    let unary = EngineUnary::new(3, context);
    assert_eq!(unary.id(), "req-2");
    assert_eq!(unary.context().controls, 'a');
    let (value, context) = unary.into_parts();
    assert_eq!(value, 3);
    let stream = EngineStream::new(vec![1, 2], context);
    assert_eq!(stream.id(), "req-2");
    assert_eq!(stream.context().controls, 'a');
    assert_eq!(stream.into_parts().0, vec![1, 2]);
    let event = Event {
        id: "e".to_string(),
    };
    assert_eq!(event.clone().id, "e");
}

#[test]
fn router_starts_dispatches() {
    let router = AddressedPushRouter::new("client", "transport").unwrap();
    assert_eq!(*router.req_client(), "client");
    assert_eq!(*router.resp_transport(), "transport");

    let request = AddressedRequest::for_instance(5, instance());
    let context = Context::new(request, "req-1".to_string(), StringMap::new());
    let (payload, _, effects) = router.generate::<_, String>(context);
    assert_eq!(payload, 5);
    assert!(matches!(effects[0], Effect::IncrementInflight));
    assert!(matches!(
        effects[1],
        Effect::Register {
            request_stream: false,
            response_stream: true
        }
    ));

    let input = Context::new(
        RequestStream::new("frames"),
        "req-2".to_string(),
        StringMap::new(),
    );
    let (stream, _, effects) =
        router.generate_bidirectional::<_, String>(instance(), "host:1".to_string(), input);
    assert_eq!(stream, "frames");
    assert!(matches!(
        effects[1],
        Effect::Register {
            request_stream: true,
            response_stream: true
        }
    ));
}
