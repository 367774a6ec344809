//! The property-ownership record stored in the ledger.
use vstd::prelude::*;

use crate::bytes::clone_bytes;
use crate::KEY_LEN;

verus! {

/// Mathematical value of a [`Property`] record: every field as a plain
/// sequence or integer. Contracts throughout the crate speak of this type.
pub struct PropertySpec {
    /// The 32-byte identity the record is stored under.
    pub property_id: Seq<u8>,
    /// Identity of the party that registered or last modified the record.
    pub registrator_id: Seq<u8>,
    /// Unsigned magnitude attached to the record (e.g. an assessed value).
    pub object_value: u64,
    /// UTF-8 bytes of the owner's name.
    pub owner_name: Seq<u8>,
    /// Status code; 1 right after creation, 2 after any status change.
    pub status: u64,
}

impl PropertySpec {
    /// Both identity fields have the fixed identity length.
    pub open spec fn wf(self) -> bool {
        &&& self.property_id.len() == KEY_LEN
        &&& self.registrator_id.len() == KEY_LEN
    }
}

/// A property-ownership record. A value is immutable once constructed; a
/// status change builds a fresh record that replaces the old one under the
/// same `property_id` key.
pub struct Property {
    /// The 32-byte identity the record is stored under.
    pub property_id: Vec<u8>,
    /// Identity of the party that registered or last modified the record.
    pub registrator_id: Vec<u8>,
    /// Unsigned magnitude attached to the record (e.g. an assessed value).
    pub object_value: u64,
    /// UTF-8 bytes of the owner's name.
    pub owner_name: Vec<u8>,
    /// Status code; 1 right after creation, 2 after any status change.
    pub status: u64,
}

impl View for Property {
    type V = PropertySpec;

    open spec fn view(&self) -> PropertySpec {
        PropertySpec {
            property_id: self.property_id@,
            registrator_id: self.registrator_id@,
            object_value: self.object_value,
            owner_name: self.owner_name@,
            status: self.status,
        }
    }
}

impl Property {
    /// Both identity fields have the fixed identity length.
    pub open spec fn wf(self) -> bool {
        self@.wf()
    }

    /// Constructs a record from its five fields.
    pub fn new(
        property_id: Vec<u8>,
        registrator_id: Vec<u8>,
        object_value: u64,
        owner_name: Vec<u8>,
        status: u64,
    ) -> (r: Property)
        requires
            property_id@.len() == KEY_LEN,
            registrator_id@.len() == KEY_LEN,
        ensures
            r@ == (PropertySpec {
                property_id: property_id@,
                registrator_id: registrator_id@,
                object_value,
                owner_name: owner_name@,
                status,
            }),
            r.wf(),
    {
        Property { property_id, registrator_id, object_value, owner_name, status }
    }

    /// Returns a fresh record that copies every current field but carries
    /// `new_status` as its status. The receiver is consumed; no stored state
    /// is touched.
    #[allow(non_snake_case)]
    pub fn changeStatus(self, new_status: u64) -> (r: Self)
        requires
            self.wf(),
        ensures
            r@ == (PropertySpec { status: new_status, ..self@ }),
            r.wf(),
    {
        Property::new(
            self.property_id,
            self.registrator_id,
            self.object_value,
            self.owner_name,
            new_status,
        )
    }

    /// Returns a record with the same mathematical value as this one.
    pub fn duplicate(&self) -> (r: Property)
        ensures
            r@ == self@,
    {
        Property {
            property_id: clone_bytes(&self.property_id),
            registrator_id: clone_bytes(&self.registrator_id),
            object_value: self.object_value,
            owner_name: clone_bytes(&self.owner_name),
            status: self.status,
        }
    }
}

} // verus!
