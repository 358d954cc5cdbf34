//! What holds of every exchange with the host, whatever the host does.
use vstd::prelude::*;
use crate::cbor::{decoding, encoding, DataItem, DecodeError, MAX_NESTING_LEVEL};
use crate::host::{
    identity_outcome, register_notify_message, register_notify_outcome, submit_tx_message,
    submit_tx_outcome, Error, RegisterNotifyOpts, SubmitTxOpts, TxResult,
};
use crate::rpc::host_rpc_call_outcome;
use crate::types::{Body, Namespace, Proof, PublicKey, RegisterNotifyRuntimeEvent, TransportError};

verus! {

/// A request is answered by one kind of message and by no other. What the
/// host sends in reply is accepted where it answers the request that was
/// sent. Any other message, be it the proper answer to a different request,
/// is a bad response and is never taken for a result.
pub proof fn lemma_only_the_answer_is_accepted(
    body: Body,
    own_runtime_id: Namespace,
    data: Vec<u8>,
    submit: SubmitTxOpts,
    notify: RegisterNotifyOpts,
    call: Body,
)
    requires
        call is HostRPCCallRequest,
    ensures
        identity_outcome(Ok(body)) is Ok <==> body.answers(Body::HostIdentityRequest),
        identity_outcome(Ok(body)) == Err::<PublicKey, Error>(Error::BadResponse)
            <==> !body.answers(Body::HostIdentityRequest),
        submit_tx_outcome(submit, Ok(body)) is Ok <==> body.answers(
            submit_tx_message(own_runtime_id, data, submit),
        ),
        submit_tx_outcome(submit, Ok(body)) == Err::<Option<TxResult>, Error>(Error::BadResponse)
            <==> !body.answers(submit_tx_message(own_runtime_id, data, submit)),
        register_notify_outcome(Ok(body)) is Ok <==> body.answers(register_notify_message(notify)),
        register_notify_outcome(Ok(body)) == Err::<(), Error>(Error::BadResponse)
            <==> !body.answers(register_notify_message(notify)),
        host_rpc_call_outcome(Ok(body)) is Ok ==> body.answers(call),
        host_rpc_call_outcome(Ok(body)) == Err::<DataItem, Error>(Error::BadResponse)
            <==> !body.answers(call),
{
}

/// No message answers requests of two kinds: an answer that is accepted
/// for one capability is a bad response for every other.
pub proof fn lemma_no_answer_serves_two_requests(body: Body, submit: SubmitTxOpts)
    ensures
        !(identity_outcome(Ok(body)) is Ok && submit_tx_outcome(submit, Ok(body)) is Ok),
        !(identity_outcome(Ok(body)) is Ok && register_notify_outcome(Ok(body)) is Ok),
        !(identity_outcome(Ok(body)) is Ok && host_rpc_call_outcome(Ok(body)) is Ok),
        !(submit_tx_outcome(submit, Ok(body)) is Ok && register_notify_outcome(Ok(body)) is Ok),
        !(submit_tx_outcome(submit, Ok(body)) is Ok && host_rpc_call_outcome(Ok(body)) is Ok),
        !(register_notify_outcome(Ok(body)) is Ok && host_rpc_call_outcome(Ok(body)) is Ok),
{
}

/// A failure of the channel reaches the caller as it was reported, whatever
/// the request was.
pub proof fn lemma_transport_failure_is_passed_on(err: TransportError, opts: SubmitTxOpts)
    ensures
        identity_outcome(Err(err)) == Err::<PublicKey, Error>(Error::Host(err)),
        submit_tx_outcome(opts, Err(err)) == Err::<Option<TxResult>, Error>(Error::Host(err)),
        register_notify_outcome(Err(err)) == Err::<(), Error>(Error::Host(err)),
        host_rpc_call_outcome(Err(err)) == Err::<DataItem, Error>(Error::Host(err)),
{
}

/// A submission that did not wait has no result, even where the host sent
/// one with its response. A submission that waited has the result that the
/// response holds, field by field.
pub proof fn lemma_result_only_after_wait(
    opts: SubmitTxOpts,
    output: Vec<u8>,
    round: u64,
    batch_order: u32,
    proof: Option<Proof>,
)
    ensures
        ({
            let response = Body::HostSubmitTxResponse { output, round, batch_order, proof };
            submit_tx_outcome(opts, Ok(response)) == if opts.wait {
                Ok::<Option<TxResult>, Error>(Some(TxResult { output, round, batch_order, proof }))
            } else {
                Ok(None)
            }
        }),
{
}

/// A submission goes to the runtime that its options name, and to the
/// caller's own runtime where they name none. The transaction and the two
/// flags are sent as they were given.
pub proof fn lemma_runtime_defaults_to_own(
    own_runtime_id: Namespace,
    data: Vec<u8>,
    opts: SubmitTxOpts,
)
    ensures
        submit_tx_message(own_runtime_id, data, opts) is HostSubmitTxRequest,
        opts.runtime_id is None ==> submit_tx_message(own_runtime_id, data, opts)->runtime_id
            == own_runtime_id,
        opts.runtime_id matches Some(runtime_id) ==> submit_tx_message(
            own_runtime_id,
            data,
            opts,
        )->runtime_id == runtime_id,
        submit_tx_message(own_runtime_id, data, opts)->data == data,
        submit_tx_message(own_runtime_id, data, opts)->wait == opts.wait,
        submit_tx_message(own_runtime_id, data, opts)->prove == opts.prove,
{
}

/// A registration without event tags leaves the event subscription out of
/// the request. One with tags sends them all, in the order given.
pub proof fn lemma_no_tags_no_subscription(opts: RegisterNotifyOpts)
    ensures
        register_notify_message(opts) is HostRegisterNotifyRequest,
        register_notify_message(opts)->runtime_block == opts.runtime_block,
        opts.runtime_event@.len() == 0 ==> register_notify_message(opts)->runtime_event is None,
        opts.runtime_event@.len() > 0 ==> register_notify_message(opts)->runtime_event == Some(
            RegisterNotifyRuntimeEvent { tags: opts.runtime_event },
        ),
{
}

/// Where the host answers a call with the encoding of a data item, and the
/// reader takes that encoding for the same item again, the call returns the
/// item.
pub proof fn lemma_call_returns_encoded_item(item: DataItem, response: Vec<u8>, node: PublicKey)
    requires
        encoding(item) == Some(response@),
        decoding(response@, Some(MAX_NESTING_LEVEL)) == Some(item),
    ensures
        host_rpc_call_outcome(Ok(Body::HostRPCCallResponse { response, node })) == Ok::<
            DataItem,
            Error,
        >(item),
{
}

/// Where the payload of a call response cannot be read, the call fails
/// with a decode error. The response was of the right kind, so this is not
/// a bad response.
pub proof fn lemma_unreadable_payload_is_decode_error(response: Vec<u8>, node: PublicKey)
    requires
        decoding(response@, Some(MAX_NESTING_LEVEL)) is None,
    ensures
        host_rpc_call_outcome(Ok(Body::HostRPCCallResponse { response, node })) == Err::<
            DataItem,
            Error,
        >(Error::Decode(DecodeError::ParsingFailed)),
{
}

} // verus!
