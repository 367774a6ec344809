//! The two transaction kinds and their verify/execute rules.
//!
//! Both kinds share one wire shape: the five record fields plus the message
//! signature. Verification decides whether a transaction may run at all;
//! execution is only ever invoked on a transaction that verified, and turns
//! the borrowed store view from one state into the next.
//!
//! Signature checking itself (ed25519 over the encoded message) is a host
//! capability: the host validates a message before it hands it to this
//! module, so the rules here take the host's verdict as a plain boolean.
use vstd::prelude::*;

use crate::bytes::clone_bytes;
use crate::property::{Property, PropertySpec};
use crate::schema::{lookup, store_put, PropertyStore};
use crate::{KEY_LEN, SIG_LEN, STATUS_CHANGED, STATUS_REGISTERED, TX_CREATE_PROPERTY_ID,
    TX_TRANSFER_ID};

verus! {

/// Mathematical value of a transaction: the five record fields it carries
/// plus its signature.
pub struct TxSpec {
    /// Identity the transaction addresses; for a create it is also the
    /// signer's public identity.
    pub property_id: Seq<u8>,
    /// Identity of the registering or modifying party.
    pub registrator_id: Seq<u8>,
    /// Unsigned magnitude attached to the record.
    pub object_value: u64,
    /// UTF-8 bytes of the owner's name.
    pub owner_name: Seq<u8>,
    /// Status code carried on the wire. Execution does not honor it: a
    /// create stores status 1 and a status change stores status 2.
    pub status: u64,
    /// The 64-byte message signature.
    pub signature: Seq<u8>,
}

impl TxSpec {
    /// Identity fields and signature have their fixed lengths, and the name
    /// is short enough for its wire length field.
    pub open spec fn wf(self) -> bool {
        &&& self.property_id.len() == KEY_LEN
        &&& self.registrator_id.len() == KEY_LEN
        &&& self.signature.len() == SIG_LEN
        &&& self.owner_name.len() < 0x1_0000_0000
    }
}

/// Request to create a property record under `property_id`.
pub struct TxCreateProperty {
    /// Identity the record will be stored under; the signer's public identity.
    pub property_id: Vec<u8>,
    /// Identity of the registering party.
    pub registrator_id: Vec<u8>,
    /// Unsigned magnitude attached to the record.
    pub object_value: u64,
    /// UTF-8 bytes of the owner's name.
    pub owner_name: Vec<u8>,
    /// Status code carried on the wire; ignored by execution.
    pub status: u64,
    /// The 64-byte message signature.
    pub signature: Vec<u8>,
}

/// Request to replace the record under `property_id` with one whose status
/// is forced to 2. Named "transfer" in the routing identifier.
pub struct TxChangeStatus {
    /// Identity the record is stored under.
    pub property_id: Vec<u8>,
    /// Identity of the modifying party.
    pub registrator_id: Vec<u8>,
    /// Unsigned magnitude attached to the record.
    pub object_value: u64,
    /// UTF-8 bytes of the owner's name.
    pub owner_name: Vec<u8>,
    /// Status code carried on the wire; ignored by execution.
    pub status: u64,
    /// The 64-byte message signature.
    pub signature: Vec<u8>,
}

impl View for TxCreateProperty {
    type V = TxSpec;

    open spec fn view(&self) -> TxSpec {
        TxSpec {
            property_id: self.property_id@,
            registrator_id: self.registrator_id@,
            object_value: self.object_value,
            owner_name: self.owner_name@,
            status: self.status,
            signature: self.signature@,
        }
    }
}

impl View for TxChangeStatus {
    type V = TxSpec;

    open spec fn view(&self) -> TxSpec {
        TxSpec {
            property_id: self.property_id@,
            registrator_id: self.registrator_id@,
            object_value: self.object_value,
            owner_name: self.owner_name@,
            status: self.status,
            signature: self.signature@,
        }
    }
}

/// The record a successful create stores: the transaction's fields with the
/// status forced to 1, whatever status the wire carried.
pub open spec fn created_record(tx: TxSpec) -> PropertySpec {
    PropertySpec {
        property_id: tx.property_id,
        registrator_id: tx.registrator_id,
        object_value: tx.object_value,
        owner_name: tx.owner_name,
        status: STATUS_REGISTERED,
    }
}

/// The record a status change stores: the transaction's fields with the
/// status forced to 2, whatever status the wire carried.
pub open spec fn changed_record(tx: TxSpec) -> PropertySpec {
    PropertySpec {
        property_id: tx.property_id,
        registrator_id: tx.registrator_id,
        object_value: tx.object_value,
        owner_name: tx.owner_name,
        status: STATUS_CHANGED,
    }
}

/// State transition of a create: store the created record only if the key
/// holds no record yet; otherwise leave the store untouched.
pub open spec fn create_execute(s: Seq<PropertySpec>, tx: TxSpec) -> Seq<PropertySpec> {
    if lookup(s, tx.property_id) is Some {
        s
    } else {
        store_put(s, created_record(tx))
    }
}

/// State transition of a status change: unconditionally overwrite the key
/// with the changed record, creating it when absent.
pub open spec fn change_execute(s: Seq<PropertySpec>, tx: TxSpec) -> Seq<PropertySpec> {
    store_put(s, changed_record(tx))
}

impl TxCreateProperty {
    /// The transaction's fields are well formed.
    pub open spec fn wf(self) -> bool {
        self@.wf()
    }

    /// Verification rule of a create: accept exactly when the signature
    /// validates against `property_id` as the signer's identity.
    /// `signature_valid` is the host's verdict of that ed25519 check over
    /// the encoded message; checking it is the host's capability.
    pub fn verify(&self, signature_valid: bool) -> (r: bool)
        ensures
            r == signature_valid,
    {
        signature_valid
    }

    /// Runs the create against a borrowed store view. Only ever invoked by
    /// the host after `verify` passed.
    pub fn execute(&self, view: &mut PropertyStore)
        requires
            old(view).wf(),
            self.wf(),
        ensures
            final(view).wf(),
            final(view)@ == create_execute(old(view)@, self@),
    {
        let existing = view.get(&self.property_id);
        if existing.is_none() {
            let prop = Property::new(
                clone_bytes(&self.property_id),
                clone_bytes(&self.registrator_id),
                self.object_value,
                clone_bytes(&self.owner_name),
                STATUS_REGISTERED,
            );
            assert(prop@ == created_record(self@));
            view.put(prop);
        }
    }
}

impl TxChangeStatus {
    /// The transaction's fields are well formed.
    pub open spec fn wf(self) -> bool {
        self@.wf()
    }

    /// Verification rule of a status change: every well-formed instance is
    /// accepted; no signature check is performed for this kind.
    pub fn verify(&self) -> (r: bool)
        ensures
            r,
    {
        true
    }

    /// Runs the status change against a borrowed store view.
    pub fn execute(&self, view: &mut PropertyStore)
        requires
            old(view).wf(),
            self.wf(),
        ensures
            final(view).wf(),
            final(view)@ == change_execute(old(view)@, self@),
    {
        let prop = Property::new(
            clone_bytes(&self.property_id),
            clone_bytes(&self.registrator_id),
            self.object_value,
            clone_bytes(&self.owner_name),
            STATUS_CHANGED,
        );
        assert(prop@ == changed_record(self@));
        view.put(prop);
    }
}

/// A decoded transaction of this service: one of the two kinds.
pub enum ServiceTransaction {
    /// A create-property request.
    Create(TxCreateProperty),
    /// A change-status request.
    ChangeStatus(TxChangeStatus),
}

impl ServiceTransaction {
    /// The carried transaction's fields are well formed.
    pub open spec fn wf(self) -> bool {
        match self {
            ServiceTransaction::Create(tx) => tx.wf(),
            ServiceTransaction::ChangeStatus(tx) => tx.wf(),
        }
    }

    /// The 16-bit message-kind tag of this transaction.
    pub open spec fn kind_id(self) -> u16 {
        match self {
            ServiceTransaction::Create(_) => TX_CREATE_PROPERTY_ID,
            ServiceTransaction::ChangeStatus(_) => TX_TRANSFER_ID,
        }
    }

    /// The carried fields, whichever the kind.
    pub open spec fn fields(self) -> TxSpec {
        match self {
            ServiceTransaction::Create(tx) => tx@,
            ServiceTransaction::ChangeStatus(tx) => tx@,
        }
    }

    /// Whether verification accepts this transaction, given the host's
    /// signature verdict for create messages.
    pub open spec fn verify_spec(self, signature_valid: bool) -> bool {
        match self {
            ServiceTransaction::Create(_) => signature_valid,
            ServiceTransaction::ChangeStatus(_) => true,
        }
    }

    /// The state this transaction's execution turns `s` into.
    pub open spec fn execute_spec(self, s: Seq<PropertySpec>) -> Seq<PropertySpec> {
        match self {
            ServiceTransaction::Create(tx) => create_execute(s, tx@),
            ServiceTransaction::ChangeStatus(tx) => change_execute(s, tx@),
        }
    }

    /// Verifies this transaction. `signature_valid` is the host's ed25519
    /// verdict on the message against `property_id`; it is consulted only
    /// for a create, since a status change performs no signature check.
    pub fn verify(&self, signature_valid: bool) -> (r: bool)
        ensures
            r == self.verify_spec(signature_valid),
    {
        match self {
            ServiceTransaction::Create(tx) => tx.verify(signature_valid),
            ServiceTransaction::ChangeStatus(tx) => tx.verify(),
        }
    }

    /// Runs this transaction against a borrowed store view.
    pub fn execute(&self, view: &mut PropertyStore)
        requires
            old(view).wf(),
            self.wf(),
        ensures
            final(view).wf(),
            final(view)@ == self.execute_spec(old(view)@),
    {
        match self {
            ServiceTransaction::Create(tx) => tx.execute(view),
            ServiceTransaction::ChangeStatus(tx) => tx.execute(view),
        }
    }
}

/// Runs one transaction the way the host does: verify first, execute only on
/// success. A transaction that fails verification — a create whose signature
/// does not match `property_id` — never touches the store.
pub fn process_transaction(
    view: &mut PropertyStore,
    tx: &ServiceTransaction,
    signature_valid: bool,
) -> (r: bool)
    requires
        old(view).wf(),
        tx.wf(),
    ensures
        final(view).wf(),
        r == tx.verify_spec(signature_valid),
        !r ==> final(view)@ == old(view)@,
        r ==> final(view)@ == tx.execute_spec(old(view)@),
{
    if tx.verify(signature_valid) {
        tx.execute(view);
        true
    } else {
        false
    }
}

} // verus!
