//! The capabilities of the host: its identity, the submission of
//! transactions, and the registration for notifications.
//!
//! Each capability is one exchange. A `*_request` function builds the
//! message to send; the matching `*_response` function takes what the channel
//! came back with and accepts exactly one kind of message as the answer.
//! Whoever has to wait for the channel calls the two halves. Where the
//! channel is a function, [`identity`], [`submit_tx`] and [`register_notify`]
//! do the whole exchange.
use vstd::prelude::*;
use crate::cbor::DecodeError;
use crate::types::{Body, Namespace, Proof, PublicKey, RegisterNotifyRuntimeEvent, TransportError};

verus! {

/// What can go wrong in an exchange with the host.
#[derive(Clone, Debug, PartialEq, Eq)]
pub enum Error {
    /// The host answered, but not with the kind of message that answers the
    /// request.
    BadResponse,
    /// The channel failed; this is its own report.
    Host(TransportError),
    /// The answer was of the right kind, but its payload could not be
    /// decoded.
    Decode(DecodeError),
}

impl Error {
    /// The description of the error, as a sequence of characters. A failure
    /// of the channel or of the decoder is described in its own words.
    pub open spec fn description(self) -> Seq<char> {
        match self {
            Error::BadResponse => "bad response from host"@,
            Error::Host(err) => err.message@,
            Error::Decode(err) => err.description(),
        }
    }

    /// A description of the error, for people to read.
    pub fn message(&self) -> (text: String)
        ensures
            text@ == self.description(),
    {
        match self {
            Error::BadResponse => "bad response from host".to_owned(),
            Error::Host(err) => err.message.clone(),
            Error::Decode(err) => err.message(),
        }
    }
}

impl From<TransportError> for Error {
    fn from(err: TransportError) -> (res: Error) {
        Error::Host(err)
    }
}

impl vstd::std_specs::convert::FromSpecImpl<TransportError> for Error {
    open spec fn obeys_from_spec() -> bool {
        true
    }

    open spec fn from_spec(err: TransportError) -> Error {
        Error::Host(err)
    }
}

impl From<DecodeError> for Error {
    fn from(err: DecodeError) -> (res: Error) {
        Error::Decode(err)
    }
}

impl vstd::std_specs::convert::FromSpecImpl<DecodeError> for Error {
    open spec fn obeys_from_spec() -> bool {
        true
    }

    open spec fn from_spec(err: DecodeError) -> Error {
        Error::Decode(err)
    }
}

/// How a transaction is to be submitted.
#[derive(Clone, Debug, PartialEq, Eq)]
pub struct SubmitTxOpts {
    /// The runtime that the transaction is for. `None` stands for the
    /// caller's own runtime.
    pub runtime_id: Option<Namespace>,
    /// Whether to wait until the transaction has been executed.
    pub wait: bool,
    /// Whether to ask for a proof that the transaction is part of a block.
    pub prove: bool,
}

impl Default for SubmitTxOpts {
    fn default() -> (opts: SubmitTxOpts)
        ensures
            opts == (SubmitTxOpts { runtime_id: None, wait: false, prove: false }),
    {
        SubmitTxOpts { runtime_id: None, wait: false, prove: false }
    }
}

/// What a transaction that was waited for came to.
#[derive(Clone, Debug, PartialEq, Eq)]
pub struct TxResult {
    /// What the transaction returned.
    pub output: Vec<u8>,
    /// The round in which it was executed.
    pub round: u64,
    /// Its place in the batch that was executed in that round.
    pub batch_order: u32,
    /// The proof that it is part of a block, where the host sent one.
    pub proof: Option<Proof>,
}

impl Default for TxResult {
    fn default() -> (result: TxResult)
        ensures
            result.output@ == Seq::<u8>::empty(),
            result.round == 0,
            result.batch_order == 0,
            result.proof is None,
    {
        TxResult { output: Vec::new(), round: 0, batch_order: 0, proof: None }
    }
}

/// What to be notified of.
#[derive(Clone, Debug, PartialEq, Eq)]
pub struct RegisterNotifyOpts {
    /// Whether to be notified of the blocks of the runtime.
    pub runtime_block: bool,
    /// The tags of the runtime events to be notified of. With no tag there
    /// is no subscription to events.
    pub runtime_event: Vec<Vec<u8>>,
}

impl Default for RegisterNotifyOpts {
    fn default() -> (opts: RegisterNotifyOpts)
        ensures
            !opts.runtime_block,
            opts.runtime_event@ == Seq::<Vec<u8>>::empty(),
    {
        RegisterNotifyOpts { runtime_block: false, runtime_event: Vec::new() }
    }
}

/// What becomes of a reply to the request for the host's identity: the node
/// identifier of an identity response, and an error for everything else.
pub open spec fn identity_outcome(reply: Result<Body, TransportError>) -> Result<
    PublicKey,
    Error,
> {
    match reply {
        Ok(Body::HostIdentityResponse { node_id }) => Ok(node_id),
        Ok(_) => Err(Error::BadResponse),
        Err(err) => Err(Error::Host(err)),
    }
}

/// The message that submits the transaction `data`. It goes to the runtime
/// that `opts` names, and to the caller's own runtime where they name none.
pub open spec fn submit_tx_message(
    own_runtime_id: Namespace,
    data: Vec<u8>,
    opts: SubmitTxOpts,
) -> Body {
    Body::HostSubmitTxRequest {
        runtime_id: match opts.runtime_id {
            Some(runtime_id) => runtime_id,
            None => own_runtime_id,
        },
        data,
        wait: opts.wait,
        prove: opts.prove,
    }
}

/// What becomes of a reply to a submission. Whether there is a result
/// depends on what was asked for, not on what the host sent: a submission
/// that did not wait has none.
pub open spec fn submit_tx_outcome(
    opts: SubmitTxOpts,
    reply: Result<Body, TransportError>,
) -> Result<Option<TxResult>, Error> {
    match reply {
        Ok(Body::HostSubmitTxResponse { output, round, batch_order, proof }) => if opts.wait {
            Ok(Some(TxResult { output, round, batch_order, proof }))
        } else {
            Ok(None)
        },
        Ok(_) => Err(Error::BadResponse),
        Err(err) => Err(Error::Host(err)),
    }
}

/// The message that registers for notifications. A subscription to no tag
/// at all is not sent as an empty list: the field is left out.
pub open spec fn register_notify_message(opts: RegisterNotifyOpts) -> Body {
    Body::HostRegisterNotifyRequest {
        runtime_block: opts.runtime_block,
        runtime_event: if opts.runtime_event@.len() == 0 {
            None
        } else {
            Some(RegisterNotifyRuntimeEvent { tags: opts.runtime_event })
        },
    }
}

/// What becomes of a reply to a registration: only the empty message
/// confirms it.
pub open spec fn register_notify_outcome(reply: Result<Body, TransportError>) -> Result<(), Error> {
    match reply {
        Ok(Body::Empty) => Ok(()),
        Ok(_) => Err(Error::BadResponse),
        Err(err) => Err(Error::Host(err)),
    }
}

/// The request that asks the host for its identity.
pub fn identity_request() -> (request: Body)
    ensures
        request == Body::HostIdentityRequest,
{
    Body::HostIdentityRequest
}

/// Takes the identity of the host node from the reply to
/// [`identity_request`].
pub fn identity_response(reply: Result<Body, TransportError>) -> (res: Result<PublicKey, Error>)
    ensures
        res == identity_outcome(reply),
{
    match reply {
        Ok(Body::HostIdentityResponse { node_id }) => Ok(node_id),
        Ok(_) => Err(Error::BadResponse),
        Err(err) => Err(Error::from(err)),
    }
}

/// The request that submits the transaction `data`.
pub fn submit_tx_request(
    own_runtime_id: Namespace,
    data: Vec<u8>,
    opts: &SubmitTxOpts,
) -> (request: Body)
    ensures
        request == submit_tx_message(own_runtime_id, data, *opts),
{
    let runtime_id = match opts.runtime_id {
        Some(runtime_id) => runtime_id,
        None => own_runtime_id,
    };
    Body::HostSubmitTxRequest { runtime_id, data, wait: opts.wait, prove: opts.prove }
}

/// Takes the result of a submission from the reply to
/// [`submit_tx_request`]; `opts` are the options that the request was built
/// with.
pub fn submit_tx_response(
    opts: &SubmitTxOpts,
    reply: Result<Body, TransportError>,
) -> (res: Result<Option<TxResult>, Error>)
    ensures
        res == submit_tx_outcome(*opts, reply),
{
    match reply {
        Ok(Body::HostSubmitTxResponse { output, round, batch_order, proof }) => {
            if opts.wait {
                Ok(Some(TxResult { output, round, batch_order, proof }))
            } else {
                // Nothing was waited for, so nothing is reported.
                Ok(None)
            }
        },
        Ok(_) => Err(Error::BadResponse),
        Err(err) => Err(Error::from(err)),
    }
}

/// The request that registers for notifications.
pub fn register_notify_request(opts: RegisterNotifyOpts) -> (request: Body)
    ensures
        request == register_notify_message(opts),
{
    let runtime_block = opts.runtime_block;
    let tags = opts.runtime_event;
    let runtime_event = if tags.len() == 0 {
        None
    } else {
        Some(RegisterNotifyRuntimeEvent { tags })
    };
    Body::HostRegisterNotifyRequest { runtime_block, runtime_event }
}

/// Takes the confirmation of a registration from the reply to
/// [`register_notify_request`].
pub fn register_notify_response(reply: Result<Body, TransportError>) -> (res: Result<(), Error>)
    ensures
        res == register_notify_outcome(reply),
{
    match reply {
        Ok(Body::Empty) => Ok(()),
        Ok(_) => Err(Error::BadResponse),
        Err(err) => Err(Error::from(err)),
    }
}

/// Asks the host for its identity. The request goes over `channel`, which
/// delivers one message and returns what came back.
pub fn identity<C>(channel: C) -> (res: Result<PublicKey, Error>) where
    C: FnOnce(Body) -> Result<Body, TransportError>,

    requires
        call_requires(channel, (Body::HostIdentityRequest,)),
    ensures
        exists|reply: Result<Body, TransportError>|
            #[trigger] call_ensures(channel, (Body::HostIdentityRequest,), reply) && res
                == identity_outcome(reply),
{
    let reply = channel(identity_request());
    identity_response(reply)
}

/// Submits the transaction `data` over `channel`, for the runtime
/// `own_runtime_id`.
pub fn submit_tx<C>(
    channel: C,
    own_runtime_id: Namespace,
    data: Vec<u8>,
    opts: SubmitTxOpts,
) -> (res: Result<Option<TxResult>, Error>) where
    C: FnOnce(Body) -> Result<Body, TransportError>,

    requires
        call_requires(channel, (submit_tx_message(own_runtime_id, data, opts),)),
    ensures
        exists|reply: Result<Body, TransportError>|
            #[trigger] call_ensures(
                channel,
                (submit_tx_message(own_runtime_id, data, opts),),
                reply,
            ) && res == submit_tx_outcome(opts, reply),
{
    let reply = channel(submit_tx_request(own_runtime_id, data, &opts));
    submit_tx_response(&opts, reply)
}

/// Registers for notifications over `channel`.
pub fn register_notify<C>(channel: C, opts: RegisterNotifyOpts) -> (res: Result<(), Error>) where
    C: FnOnce(Body) -> Result<Body, TransportError>,

    requires
        call_requires(channel, (register_notify_message(opts),)),
    ensures
        exists|reply: Result<Body, TransportError>|
            #[trigger] call_ensures(channel, (register_notify_message(opts),), reply) && res
                == register_notify_outcome(reply),
{
    let reply = channel(register_notify_request(opts));
    register_notify_response(reply)
}

} // verus!
