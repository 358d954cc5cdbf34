//! The messages that travel between the enclave and the host, and the values
//! they carry.
use vstd::prelude::*;

verus! {

/// The public key of a node. It is carried, never looked into.
#[derive(Clone, Copy, Debug, PartialEq, Eq)]
pub struct PublicKey(pub [u8; 32]);

/// The identifier of a runtime.
#[derive(Clone, Copy, Debug, PartialEq, Eq)]
pub struct Namespace(pub [u8; 32]);

/// A proof that a transaction is part of a block, as the storage layer of
/// the host produced it. It is carried, never looked into: checking it is
/// the business of whoever receives it.
#[derive(Clone, Debug, PartialEq, Eq)]
pub struct Proof {
    /// The root that the proof claims to be for.
    pub untrusted_root: [u8; 32],
    /// The entries of the proof, in pre-order.
    pub entries: Vec<Option<Vec<u8>>>,
}

/// How a call to a host service is to be made.
#[derive(Clone, Copy, Debug, PartialEq, Eq)]
pub enum Kind {
    /// Over an encrypted and authenticated session.
    NoiseSession,
    /// As a plain query to a remote node.
    InsecureQuery,
    /// As a query that the local host answers itself.
    LocalQuery,
}

/// The subscription to runtime events: the tags to be notified of.
#[derive(Clone, Debug, PartialEq, Eq)]
pub struct RegisterNotifyRuntimeEvent {
    pub tags: Vec<Vec<u8>>,
}

/// What the channel reports when it could not obtain an answer.
#[derive(Clone, Debug, PartialEq, Eq)]
pub struct TransportError {
    /// The part of the host that failed.
    pub module: String,
    /// The code of the failure within that part.
    pub code: u32,
    /// A description of the failure.
    pub message: String,
}

/// A message between the enclave and the host. Every request has exactly one
/// kind of response that answers it; for a request that asks for nothing
/// back, that is [`Body::Empty`].
#[derive(Clone, Debug, PartialEq, Eq)]
pub enum Body {
    /// Success, with nothing to report.
    Empty,
    /// Asks a host service to run one of its methods.
    HostRPCCallRequest {
        endpoint: String,
        request_id: u64,
        request: Vec<u8>,
        kind: Kind,
        nodes: Vec<PublicKey>,
    },
    /// What the method returned, and the node that ran it.
    HostRPCCallResponse { response: Vec<u8>, node: PublicKey },
    /// Asks the host to submit a transaction to a runtime.
    HostSubmitTxRequest { runtime_id: Namespace, data: Vec<u8>, wait: bool, prove: bool },
    /// Where the transaction was executed and what it returned.
    HostSubmitTxResponse { output: Vec<u8>, round: u64, batch_order: u32, proof: Option<Proof> },
    /// Asks the host to send notifications from now on.
    HostRegisterNotifyRequest {
        runtime_block: bool,
        runtime_event: Option<RegisterNotifyRuntimeEvent>,
    },
    /// Asks the host who it is.
    HostIdentityRequest,
    /// The identity of the host node.
    HostIdentityResponse { node_id: PublicKey },
}

impl Body {
    /// Whether `self` is the kind of message that answers `request`. No
    /// message answers a message that is itself an answer.
    pub open spec fn answers(self, request: Body) -> bool {
        match request {
            Body::HostRPCCallRequest { .. } => self is HostRPCCallResponse,
            Body::HostSubmitTxRequest { .. } => self is HostSubmitTxResponse,
            Body::HostRegisterNotifyRequest { .. } => self is Empty,
            Body::HostIdentityRequest => self is HostIdentityResponse,
            _ => false,
        }
    }
}

} // verus!
