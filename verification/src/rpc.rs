//! Calls to the methods of host services.
//!
//! A call names an endpoint and a method and carries arguments that mean
//! something to that service only. The arguments and the method's name are
//! encoded together as one CBOR record, and the record travels as the opaque
//! payload of a [`Body::HostRPCCallRequest`]. What comes back is again an
//! opaque payload: it is read as one CBOR value and handed to the caller,
//! who knows what it should hold. Calls go to the local host only.
//!
//! As with the other capabilities, there is a function for the request, one
//! for the response, and [`host_rpc_call`] for the whole exchange over a
//! channel that is a function.
use vstd::prelude::*;
use oasis_cbor_value::reader::DecoderError;
use oasis_cbor_value::values::Value;
use crate::cbor::{
    decoding, encode, encoding, is_writable, item_of, writable, DataItem, DecodeError,
    MAX_NESTING_LEVEL,
};
use crate::host::Error;
use crate::types::{Body, Kind, TransportError};

verus! {

/// The request identifier of every call. Calls are not pipelined, so one
/// identifier serves them all.
pub const REQUEST_ID: u64 = 0;

/// The record that asks for `method` to be run on `args`: a map from
/// `"method"` to the name and from `"args"` to the arguments.
pub open spec fn call_record(method: Seq<char>, args: DataItem) -> DataItem {
    DataItem::Mapping(
        seq![
            (DataItem::TextString("method"@), DataItem::TextString(method)),
            (DataItem::TextString("args"@), args),
        ],
    )
}

/// The payload of the call of `method` on `args`: the encoding of their
/// record, or `None` where the writer cannot work on the arguments or
/// refuses the record.
pub open spec fn call_payload(method: Seq<char>, args: DataItem) -> Option<Seq<u8>> {
    if writable(args) {
        encoding(call_record(method, args))
    } else {
        None
    }
}

/// Whether `message` is the call of `endpoint` on the local host with the
/// payload `payload`.
pub open spec fn is_local_call(message: Body, endpoint: Seq<char>, payload: Seq<u8>) -> bool {
    message matches Body::HostRPCCallRequest { endpoint: to, request_id, request, kind, nodes }
        && to@ == endpoint
        && request_id == REQUEST_ID
        && request@ == payload
        && kind == Kind::LocalQuery
        && nodes@.len() == 0
}

/// What becomes of a reply to a call: the data item that the payload of a
/// call response encodes, and an error for everything else.
pub open spec fn host_rpc_call_outcome(reply: Result<Body, TransportError>) -> Result<
    DataItem,
    Error,
> {
    match reply {
        Ok(Body::HostRPCCallResponse { response, .. }) => match decoding(
            response@,
            Some(MAX_NESTING_LEVEL),
        ) {
            Some(item) => Ok(item),
            None => Err(Error::Decode(DecodeError::ParsingFailed)),
        },
        Ok(_) => Err(Error::BadResponse),
        Err(err) => Err(Error::Host(err)),
    }
}

/// The result of a call, with the data item in place of the value.
pub open spec fn item_result(res: Result<Value, Error>) -> Result<DataItem, Error> {
    match res {
        Ok(value) => Ok(item_of(value)),
        Err(err) => Err(err),
    }
}

/// The writer can work on the record of a call where it can work on the
/// arguments, and only there.
pub proof fn lemma_record_is_as_writable_as_its_arguments(method: Seq<char>, args: DataItem)
    ensures
        writable(call_record(method, args)) == writable(args),
{
    let entries = call_record(method, args)->Mapping_0;
    assert(entries[1].1 == args);
    assert(writable(entries[0].0) && writable(entries[0].1) && writable(entries[1].0));
}

/// Builds the record that asks for `method` to be run on `args`.
pub fn call_request(method: &str, args: Value) -> (record: Value)
    ensures
        item_of(record) == call_record(method@, item_of(args)),
{
    let mut entries: Vec<(Value, Value)> = Vec::new();
    entries.push((Value::TextString("method".to_owned()), Value::TextString(method.to_owned())));
    entries.push((Value::TextString("args".to_owned()), args));
    let record = Value::Map(entries);
    proof {
        reveal_with_fuel(item_of, 2);
        let held = item_of(record)->Mapping_0;
        let wanted = call_record(method@, item_of(args))->Mapping_0;
        assert(held =~= wanted);
    }
    record
}

/// Wraps an encoded record as a call of `endpoint` on the local host.
pub fn host_rpc_call_message(endpoint: &str, request: Vec<u8>) -> (message: Body)
    ensures
        is_local_call(message, endpoint@, request@),
        message->request == request,
{
    Body::HostRPCCallRequest {
        endpoint: endpoint.to_owned(),
        request_id: REQUEST_ID,
        request,
        kind: Kind::LocalQuery,
        nodes: Vec::new(),
    }
}

/// The request that calls `method` of `endpoint` on `args`, or `None` where
/// there is no payload for it: the writer cannot work on a negative integer
/// that is the largest `i128`, and it refuses arguments that nest more than
/// 126 levels deep or hold a map with the same key twice.
pub fn host_rpc_call_request(endpoint: &str, method: &str, args: Value) -> (request: Option<Body>)
    ensures
        match call_payload(method@, item_of(args)) {
            Some(payload) => request matches Some(message) && is_local_call(
                message,
                endpoint@,
                payload,
            ),
            None => request is None,
        },
{
    if !is_writable(&args) {
        return None;
    }
    let record = call_request(method, args);
    proof {
        lemma_record_is_as_writable_as_its_arguments(method@, item_of(args));
    }
    match encode(record) {
        Some(payload) => Some(host_rpc_call_message(endpoint, payload)),
        None => None,
    }
}

/// Turns what the reader made of a payload into the result of the call.
pub fn payload_result(parsed: Result<Value, DecoderError>) -> (res: Result<Value, Error>)
    ensures
        match parsed {
            Ok(value) => res == Ok::<Value, Error>(value),
            Err(_) => res == Err::<Value, Error>(Error::Decode(DecodeError::ParsingFailed)),
        },
{
    match parsed {
        Ok(value) => Ok(value),
        Err(_) => Err(Error::from(DecodeError::ParsingFailed)),
    }
}

/// Takes the value that a call returned from the reply to
/// [`host_rpc_call_request`].
pub fn host_rpc_call_response(reply: Result<Body, TransportError>) -> (res: Result<Value, Error>)
    ensures
        item_result(res) == host_rpc_call_outcome(reply),
{
    match reply {
        Ok(Body::HostRPCCallResponse { response, .. }) => payload_result(
            oasis_cbor_value::reader::read_nested(response.as_slice(), Some(MAX_NESTING_LEVEL)),
        ),
        Ok(_) => Err(Error::BadResponse),
        Err(err) => Err(Error::from(err)),
    }
}

/// Calls `method` of `endpoint` on `args` over `channel`, which delivers
/// one message and returns what came back. Where there is no payload for
/// the call, nothing is sent and the result is `None`.
pub fn host_rpc_call<C>(
    channel: C,
    endpoint: &str,
    method: &str,
    args: Value,
) -> (res: Option<Result<Value, Error>>) where
    C: FnOnce(Body) -> Result<Body, TransportError>,

    requires
        forall|message: Body|
            message is HostRPCCallRequest ==> #[trigger] call_requires(channel, (message,)),
    ensures
        match call_payload(method@, item_of(args)) {
            Some(payload) => res matches Some(result) && exists|
                message: Body,
                reply: Result<Body, TransportError>,
            |
                is_local_call(message, endpoint@, payload) && #[trigger] call_ensures(
                    channel,
                    (message,),
                    reply,
                ) && item_result(result) == host_rpc_call_outcome(reply),
            None => res is None,
        },
{
    match host_rpc_call_request(endpoint, method, args) {
        Some(message) => Some(host_rpc_call_response(channel(message))),
        None => None,
    }
}

} // verus!
