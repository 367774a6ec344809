//! The service façade: the unit the host runtime loads and addresses by a
//! stable numeric identifier and name. Its one piece of logic is turning raw
//! transaction bytes into a typed transaction.
use vstd::prelude::*;

use crate::codec::{decode_message, spec_decode, DecodeError};
use crate::tx::{ServiceTransaction, TxSpec};
use crate::SERVICE_ID;

verus! {

/// The property service as the host runtime sees it.
pub struct PropertyService;

impl PropertyService {
    /// Stable name under which the host knows this service.
    pub fn service_name(&self) -> (r: &'static str)
        ensures
            r@ == "property"@,
    {
        "property"
    }

    /// Stable numeric identifier under which the host routes raw
    /// transactions to this service.
    pub fn service_id(&self) -> (r: u16)
        ensures
            r == SERVICE_ID,
    {
        SERVICE_ID
    }

    /// Decodes one raw transaction into its concrete kind, or rejects it
    /// with the exact decoding error — an unknown message-kind tag is named
    /// in the error, never defaulted. Decoding reads the bytes alone; no
    /// store is touched.
    pub fn tx_from_raw(&self, raw: &Vec<u8>) -> (r: Result<ServiceTransaction, DecodeError>)
        ensures
            match r {
                Ok(tx) => {
                    &&& spec_decode(raw@) == Ok::<(u16, TxSpec), DecodeError>(
                        (tx.kind_id(), tx.fields()),
                    )
                    &&& tx.wf()
                },
                Err(e) => spec_decode(raw@) == Err::<(u16, TxSpec), DecodeError>(e),
            },
    {
        decode_message(raw)
    }
}

} // verus!
