//! The enclave side of the host interface.
//!
//! Code that runs inside the enclave asks the untrusted host node for a small
//! set of services: its identity, the submission of a transaction, the
//! registration for notifications, and calls to named methods of auxiliary
//! host services. Every one of them travels as a [`types::Body`] over one
//! generic channel, and the host is free to answer with anything. This crate
//! holds the two halves of every such exchange: the function that builds the
//! request, and the function that accepts exactly one shape of answer and
//! turns every other into an error. The channel itself is not part of it.
pub mod cbor;
pub mod host;
pub mod laws;
pub mod rpc;
pub mod types;

pub use crate::host::{Error, RegisterNotifyOpts, SubmitTxOpts, TxResult};

