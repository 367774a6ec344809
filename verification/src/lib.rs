//! A small replicated-ledger service module that records property-ownership
//! records. The library is the deterministic core of the service: the record
//! type, the schema over a borrowed store view, the two transaction kinds with
//! their verify/execute rules, the wire codec, and the query logic. The host
//! runtime (consensus, networking, HTTP) stays outside and drives it.
use vstd::prelude::*;

pub mod api;
pub mod bytes;
pub mod laws;
pub mod codec;
pub mod property;
pub mod schema;
pub mod service;
pub mod tx;

verus! {

/// Stable numeric identifier under which the host routes raw transactions
/// to this service.
pub const SERVICE_ID: u16 = 1;

/// Message-kind tag of a create-property transaction.
pub const TX_CREATE_PROPERTY_ID: u16 = 1;

/// Message-kind tag of a change-status transaction.
pub const TX_TRANSFER_ID: u16 = 2;

/// Status a record carries right after creation.
pub const STATUS_REGISTERED: u64 = 1;

/// Status a record carries after any status change.
pub const STATUS_CHANGED: u64 = 2;

/// Number of bytes in a public identity value.
pub const KEY_LEN: usize = 32;

/// Number of bytes in a message signature.
pub const SIG_LEN: usize = 64;

} // verus!
