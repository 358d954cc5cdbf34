use oasis_cbor_value::values::{SimpleValue, Value};
use runtime_host::cbor::{is_writable, DecodeError, MAX_NESTING_LEVEL};
use runtime_host::host::Error;
use runtime_host::rpc::{
    call_request, host_rpc_call_message, host_rpc_call_request, host_rpc_call_response,
    payload_result, REQUEST_ID,
};
use runtime_host::types::{Body, Kind, Namespace, PublicKey, TransportError};

fn text(s: &str) -> Value {
    Value::TextString(s.to_string())
}

fn encoded(value: Value) -> Vec<u8> {
    let mut bytes = Vec::new();
    oasis_cbor_value::writer::write(value, &mut bytes).unwrap();
    bytes
}

fn response(bytes: Vec<u8>) -> Result<Body, TransportError> {
    Ok(Body::HostRPCCallResponse { response: bytes, node: PublicKey([5; 32]) })
}

/// `depth` arrays of one element, one inside the other, around a zero.
fn nested(depth: usize) -> Value {
    let mut value = Value::Unsigned(0);
    for _ in 0..depth {
        value = Value::Array(vec![value]);
    }
    value
}

/// The encoding of `nested(depth)`.
fn nested_bytes(depth: usize) -> Vec<u8> {
    let mut bytes = vec![0x81; depth];
    bytes.push(0x00);
    bytes
}

fn sample_values() -> Vec<Value> {
    vec![
        Value::Unsigned(0),
        Value::Unsigned(u64::MAX),
        Value::Negative(-1),
        Value::Negative(-1000),
        Value::ByteString(vec![]),
        Value::ByteString(vec![0, 255, 7]),
        text(""),
        text("grüße"),
        Value::Array(vec![Value::Unsigned(1), text("two"), Value::Array(vec![])]),
        Value::Map(vec![(text("a"), Value::Unsigned(1)), (text("bb"), Value::Map(vec![]))]),
        Value::Tag(24, Box::new(Value::ByteString(vec![1]))),
        Value::Simple(SimpleValue::FalseValue),
        Value::Simple(SimpleValue::TrueValue),
        Value::Simple(SimpleValue::NullValue),
        Value::Simple(SimpleValue::Undefined),
    ]
}

#[test]
fn call_request_is_a_map_of_method_and_args() {
    assert_eq!(
        call_request("BundleWrite", Value::Unsigned(5)),
        Value::Map(vec![(text("method"), text("BundleWrite")), (text("args"), Value::Unsigned(5))])
    );
}

#[test]
fn call_message_goes_to_the_local_host() {
    assert_eq!(
        host_rpc_call_message("volume-manager", vec![1, 2, 3]),
        Body::HostRPCCallRequest {
            endpoint: "volume-manager".to_string(),
            request_id: 0,
            request: vec![1, 2, 3],
            kind: Kind::LocalQuery,
            nodes: vec![],
        }
    );
    assert_eq!(REQUEST_ID, 0);
}

#[test]
fn call_request_bytes() {
    let request = host_rpc_call_request("bundle-manager", "foo", Value::Unsigned(5));
    let expected = vec![
        0xa2, // a map of two entries, the shorter key first
        0x64, b'a', b'r', b'g', b's', // "args"
        0x05, // 5
        0x66, b'm', b'e', b't', b'h', b'o', b'd', // "method"
        0x63, b'f', b'o', b'o', // "foo"
    ];
    assert_eq!(
        request,
        Some(Body::HostRPCCallRequest {
            endpoint: "bundle-manager".to_string(),
            request_id: 0,
            request: expected,
            kind: Kind::LocalQuery,
            nodes: vec![],
        })
    );
}

#[test]
fn call_request_holds_the_arguments_as_they_are() {
    for args in sample_values() {
        let record =
            Value::Map(vec![(text("method"), text("m")), (text("args"), args.clone())]);
        match host_rpc_call_request("e", "m", args) {
            Some(Body::HostRPCCallRequest { request, .. }) => assert_eq!(request, encoded(record)),
            other => panic!("not a call: {:?}", other),
        }
    }
}

#[test]
fn call_request_with_empty_names() {
    let expected = vec![
        0xa2, 0x64, b'a', b'r', b'g', b's', 0xf6, 0x66, b'm', b'e', b't', b'h', b'o', b'd', 0x60,
    ];
    assert_eq!(
        host_rpc_call_request("", "", Value::Simple(SimpleValue::NullValue)),
        Some(Body::HostRPCCallRequest {
            endpoint: String::new(),
            request_id: 0,
            request: expected,
            kind: Kind::LocalQuery,
            nodes: vec![],
        })
    );
}

#[test]
fn call_request_refuses_a_key_that_occurs_twice() {
    let args = Value::Map(vec![
        (text("k"), Value::Unsigned(1)),
        (text("k"), Value::Unsigned(2)),
    ]);
    assert_eq!(host_rpc_call_request("e", "m", args), None);
}

#[test]
fn call_request_refuses_arguments_nested_too_deeply() {
    // The record is one level, the arguments may add 127 more.
    assert!(host_rpc_call_request("e", "m", nested(126)).is_some());
    assert_eq!(host_rpc_call_request("e", "m", nested(127)), None);
}

#[test]
fn call_returns_the_value_of_the_payload() {
    assert_eq!(host_rpc_call_response(response(vec![0x05])), Ok(Value::Unsigned(5)));
    assert_eq!(
        host_rpc_call_response(response(vec![0x82, 0x01, 0x61, b'x'])),
        Ok(Value::Array(vec![Value::Unsigned(1), text("x")]))
    );
}

#[test]
fn call_round_trip() {
    for value in sample_values() {
        let reply = response(encoded(value.clone()));
        assert_eq!(host_rpc_call_response(reply), Ok(value));
    }
}

#[test]
fn call_round_trip_of_a_request() {
    // A host that sends back the very record that it was sent.
    for args in sample_values() {
        let sent = match host_rpc_call_request("e", "echo", args.clone()) {
            Some(Body::HostRPCCallRequest { request, .. }) => request,
            other => panic!("not a call: {:?}", other),
        };
        // The writer puts the shorter key first.
        let record = Value::Map(vec![(text("args"), args), (text("method"), text("echo"))]);
        assert_eq!(host_rpc_call_response(response(sent)), Ok(record));
    }
}

#[test]
fn call_returns_a_map_in_the_order_of_its_keys() {
    let unsorted =
        Value::Map(vec![(text("b"), Value::Unsigned(1)), (text("a"), Value::Unsigned(2))]);
    let sorted =
        Value::Map(vec![(text("a"), Value::Unsigned(2)), (text("b"), Value::Unsigned(1))]);
    assert_ne!(unsorted, sorted);
    assert_eq!(host_rpc_call_response(response(encoded(unsorted))), Ok(sorted));
}

#[test]
fn call_fails_to_decode_a_corrupt_payload() {
    let bad = Err(Error::Decode(DecodeError::ParsingFailed));
    // Nothing at all.
    assert_eq!(host_rpc_call_response(response(vec![])), bad);
    // A text string cut short.
    assert_eq!(host_rpc_call_response(response(vec![0x63, b'f', b'o'])), bad);
    // A byte left over.
    assert_eq!(host_rpc_call_response(response(vec![0x05, 0x00])), bad);
    // An integer in more bytes than it needs.
    assert_eq!(host_rpc_call_response(response(vec![0x18, 0x05])), bad);
    // A map with its keys out of order.
    assert_eq!(
        host_rpc_call_response(response(vec![0xa2, 0x61, b'b', 0x01, 0x61, b'a', 0x02])),
        bad
    );
    // Text that is not UTF-8.
    assert_eq!(host_rpc_call_response(response(vec![0x61, 0xff])), bad);
    // A floating-point number.
    assert_eq!(host_rpc_call_response(response(vec![0xf9, 0x3c, 0x00])), bad);
}

#[test]
fn call_fails_to_decode_every_truncated_payload() {
    let whole = encoded(Value::Array(vec![text("abc"), Value::Unsigned(1000), Value::Map(vec![])]));
    for cut in 0..whole.len() {
        assert_eq!(
            host_rpc_call_response(response(whole[..cut].to_vec())),
            Err(Error::Decode(DecodeError::ParsingFailed))
        );
    }
}

#[test]
fn call_reads_values_down_to_the_nesting_limit() {
    assert_eq!(MAX_NESTING_LEVEL, 64);
    assert_eq!(host_rpc_call_response(response(nested_bytes(64))), Ok(nested(64)));
    assert_eq!(
        host_rpc_call_response(response(nested_bytes(65))),
        Err(Error::Decode(DecodeError::ParsingFailed))
    );
}

#[test]
fn call_rejects_every_other_message() {
    let others = vec![
        Body::Empty,
        Body::HostRPCCallRequest {
            endpoint: "e".to_string(),
            request_id: 0,
            request: vec![0x05],
            kind: Kind::LocalQuery,
            nodes: vec![],
        },
        Body::HostSubmitTxRequest {
            runtime_id: Namespace([0; 32]),
            data: vec![0x05],
            wait: true,
            prove: false,
        },
        Body::HostSubmitTxResponse { output: vec![0x05], round: 1, batch_order: 1, proof: None },
        Body::HostRegisterNotifyRequest { runtime_block: true, runtime_event: None },
        Body::HostIdentityRequest,
        Body::HostIdentityResponse { node_id: PublicKey([0; 32]) },
    ];
    for body in others {
        assert_eq!(host_rpc_call_response(Ok(body)), Err(Error::BadResponse));
    }
}

#[test]
fn call_passes_a_transport_failure_on() {
    let failure =
        TransportError { module: "rhp".to_string(), code: 1, message: "no host".to_string() };
    assert_eq!(host_rpc_call_response(Err(failure.clone())), Err(Error::Host(failure)));
}

#[test]
fn payload_result_of_either_outcome() {
    assert_eq!(payload_result(Ok(text("v"))), Ok(text("v")));
    let failed = oasis_cbor_value::reader::read(&[]);
    assert!(failed.is_err());
    assert_eq!(payload_result(failed), Err(Error::Decode(DecodeError::ParsingFailed)));
}

#[test]
fn call_request_refuses_the_largest_negative() {
    assert_eq!(host_rpc_call_request("e", "m", Value::Negative(i128::MAX)), None);
    let inside = Value::Array(vec![
        Value::Unsigned(1),
        Value::Map(vec![(text("k"), Value::Tag(1, Box::new(Value::Negative(i128::MAX))))]),
    ]);
    assert_eq!(host_rpc_call_request("e", "m", inside), None);
    let as_key = Value::Map(vec![(Value::Negative(i128::MAX), Value::Unsigned(1))]);
    assert_eq!(host_rpc_call_request("e", "m", as_key), None);
    assert!(host_rpc_call_request("e", "m", Value::Negative(i128::MAX - 1)).is_some());
    assert!(host_rpc_call_request("e", "m", Value::Negative(i128::MIN)).is_some());
    assert!(host_rpc_call_request("e", "m", Value::Negative(0)).is_some());
}

#[test]
fn writable_values() {
    for value in sample_values() {
        assert!(is_writable(&value));
    }
    assert!(is_writable(&Value::Negative(i128::MIN)));
    assert!(!is_writable(&Value::Negative(i128::MAX)));
    assert!(!is_writable(&Value::Array(vec![Value::Unsigned(0), Value::Negative(i128::MAX)])));
    assert!(!is_writable(&Value::Map(vec![(text("a"), Value::Negative(i128::MAX))])));
    assert!(!is_writable(&Value::Map(vec![(Value::Negative(i128::MAX), text("a"))])));
    assert!(!is_writable(&Value::Tag(7, Box::new(Value::Negative(i128::MAX)))));
    // A key that occurs twice is for the writer to refuse.
    assert!(is_writable(&Value::Map(vec![(text("a"), text("x")), (text("a"), text("y"))])));
}
