//! The wire codec: raw message bytes to typed transactions and back.
//!
//! A message is laid out as a 4-byte routing header — the 16-bit service
//! identifier then the 16-bit message-kind tag, both little endian — followed
//! by the fixed 88-byte payload, the owner-name bytes, and the 64-byte
//! signature. Within the payload the owner name is referenced by its offset
//! from the payload start (always 88: the name follows the payload directly)
//! and its length, as two 32-bit fields.
use vstd::prelude::*;

use crate::bytes::{is_valid_utf8, push_all};
use crate::tx::{ServiceTransaction, TxChangeStatus, TxCreateProperty, TxSpec};
use crate::{KEY_LEN, SERVICE_ID, SIG_LEN, TX_CREATE_PROPERTY_ID, TX_TRANSFER_ID};

verus! {

/// Bytes every message holds besides the owner name: header, payload,
/// signature.
pub const WIRE_FIXED_LEN: usize = 156;

/// Offset of the owner-name bytes from the payload start, as the payload's
/// segment reference states it: the name follows the 88-byte payload.
pub const NAME_SEGMENT_OFFSET: u32 = 88;

/// Why a raw message was rejected at decode time.
#[derive(Clone, Copy, Debug, PartialEq, Eq, Structural)]
pub enum DecodeError {
    /// The message is shorter than the fixed wire layout.
    Truncated,
    /// The message carries another service's identifier.
    WrongService {
        /// The identifier the message carried.
        service_id: u16,
    },
    /// The message-kind tag is none of the known kinds.
    IncorrectMessageType {
        /// The offending tag.
        message_type: u16,
    },
    /// The owner-name segment reference does not match the message length.
    BadSegment,
    /// The owner-name bytes are not valid UTF-8, so they spell no text.
    BadOwnerName,
}

/// The encoded wire message of a transaction with fields `t` under
/// message-kind tag `kind`.
pub open spec fn spec_encode(kind: u16, t: TxSpec) -> Seq<u8> {
    vstd::bytes::spec_u16_to_le_bytes(SERVICE_ID) + vstd::bytes::spec_u16_to_le_bytes(kind)
        + t.property_id + t.registrator_id + vstd::bytes::spec_u64_to_le_bytes(t.object_value)
        + vstd::bytes::spec_u32_to_le_bytes(NAME_SEGMENT_OFFSET) + vstd::bytes::spec_u32_to_le_bytes(
        t.owner_name.len() as u32,
    ) + vstd::bytes::spec_u64_to_le_bytes(t.status) + t.owner_name + t.signature
}

/// What decoding `b` yields: the message-kind tag and the carried fields, or
/// the exact error. Checks run in a fixed order: length, service identifier,
/// message kind, the name segment reference, then the name's UTF-8 validity.
pub open spec fn spec_decode(b: Seq<u8>) -> Result<(u16, TxSpec), DecodeError> {
    if b.len() < WIRE_FIXED_LEN {
        Err(DecodeError::Truncated)
    } else {
        let service = vstd::bytes::spec_u16_from_le_bytes(b.subrange(0, 2));
        let kind = vstd::bytes::spec_u16_from_le_bytes(b.subrange(2, 4));
        if service != SERVICE_ID {
            Err(DecodeError::WrongService { service_id: service })
        } else if kind != TX_CREATE_PROPERTY_ID && kind != TX_TRANSFER_ID {
            Err(DecodeError::IncorrectMessageType { message_type: kind })
        } else {
            let offset = vstd::bytes::spec_u32_from_le_bytes(b.subrange(76, 80));
            let name_len = vstd::bytes::spec_u32_from_le_bytes(b.subrange(80, 84));
            if offset != NAME_SEGMENT_OFFSET || name_len as int != b.len() - WIRE_FIXED_LEN {
                Err(DecodeError::BadSegment)
            } else if !vstd::utf8::valid_utf8(b.subrange(92, b.len() - 64)) {
                Err(DecodeError::BadOwnerName)
            } else {
                Ok(
                    (
                        kind,
                        TxSpec {
                            property_id: b.subrange(4, 36),
                            registrator_id: b.subrange(36, 68),
                            object_value: vstd::bytes::spec_u64_from_le_bytes(b.subrange(68, 76)),
                            owner_name: b.subrange(92, b.len() - 64),
                            status: vstd::bytes::spec_u64_from_le_bytes(b.subrange(84, 92)),
                            signature: b.subrange(b.len() - 64, b.len() as int),
                        },
                    ),
                )
            }
        }
    }
}

/// Encodes one message from its parts.
pub fn encode_parts(
    kind: u16,
    property_id: &Vec<u8>,
    registrator_id: &Vec<u8>,
    object_value: u64,
    owner_name: &Vec<u8>,
    status: u64,
    signature: &Vec<u8>,
) -> (r: Vec<u8>)
    requires
        property_id@.len() == KEY_LEN,
        registrator_id@.len() == KEY_LEN,
        signature@.len() == SIG_LEN,
        owner_name@.len() < 0x1_0000_0000,
    ensures
        r@ == spec_encode(
            kind,
            (TxSpec {
                property_id: property_id@,
                registrator_id: registrator_id@,
                object_value,
                owner_name: owner_name@,
                status,
                signature: signature@,
            }),
        ),
{
    let mut out: Vec<u8> = Vec::new();
    let sid = vstd::bytes::u16_to_le_bytes(SERVICE_ID);
    push_all(&mut out, sid.as_slice());
    let kd = vstd::bytes::u16_to_le_bytes(kind);
    push_all(&mut out, kd.as_slice());
    push_all(&mut out, property_id.as_slice());
    push_all(&mut out, registrator_id.as_slice());
    let ov = vstd::bytes::u64_to_le_bytes(object_value);
    push_all(&mut out, ov.as_slice());
    let off = vstd::bytes::u32_to_le_bytes(NAME_SEGMENT_OFFSET);
    push_all(&mut out, off.as_slice());
    let nl = vstd::bytes::u32_to_le_bytes(owner_name.len() as u32);
    push_all(&mut out, nl.as_slice());
    let st = vstd::bytes::u64_to_le_bytes(status);
    push_all(&mut out, st.as_slice());
    push_all(&mut out, owner_name.as_slice());
    push_all(&mut out, signature.as_slice());
    out
}

impl ServiceTransaction {
    /// Encoded wire message of this transaction.
    pub fn encode(&self) -> (r: Vec<u8>)
        requires
            self.wf(),
        ensures
            r@ == spec_encode(self.kind_id(), self.fields()),
    {
        match self {
            ServiceTransaction::Create(tx) => encode_parts(
                TX_CREATE_PROPERTY_ID,
                &tx.property_id,
                &tx.registrator_id,
                tx.object_value,
                &tx.owner_name,
                tx.status,
                &tx.signature,
            ),
            ServiceTransaction::ChangeStatus(tx) => encode_parts(
                TX_TRANSFER_ID,
                &tx.property_id,
                &tx.registrator_id,
                tx.object_value,
                &tx.owner_name,
                tx.status,
                &tx.signature,
            ),
        }
    }
}

/// Decodes one raw message into a typed transaction, or reports exactly why
/// it is rejected. Decoding reads the bytes alone: it never touches a store.
pub fn decode_message(raw: &Vec<u8>) -> (r: Result<ServiceTransaction, DecodeError>)
    ensures
        match r {
            Ok(tx) => {
                &&& spec_decode(raw@) == Ok::<(u16, TxSpec), DecodeError>((tx.kind_id(), tx.fields()))
                &&& tx.wf()
            },
            Err(e) => spec_decode(raw@) == Err::<(u16, TxSpec), DecodeError>(e),
        },
{
    if raw.len() < WIRE_FIXED_LEN {
        return Err(DecodeError::Truncated);
    }
    let s = raw.as_slice();
    let total = raw.len();
    let service = vstd::bytes::u16_from_le_bytes(vstd::slice::slice_subrange(s, 0, 2));
    let kind = vstd::bytes::u16_from_le_bytes(vstd::slice::slice_subrange(s, 2, 4));
    if service != SERVICE_ID {
        return Err(DecodeError::WrongService { service_id: service });
    }
    if kind != TX_CREATE_PROPERTY_ID && kind != TX_TRANSFER_ID {
        return Err(DecodeError::IncorrectMessageType { message_type: kind });
    }
    let offset = vstd::bytes::u32_from_le_bytes(vstd::slice::slice_subrange(s, 76, 80));
    let name_len = vstd::bytes::u32_from_le_bytes(vstd::slice::slice_subrange(s, 80, 84));
    if offset != NAME_SEGMENT_OFFSET || name_len as usize != total - WIRE_FIXED_LEN {
        return Err(DecodeError::BadSegment);
    }
    let property_id = vstd::slice::slice_to_vec(vstd::slice::slice_subrange(s, 4, 36));
    let registrator_id = vstd::slice::slice_to_vec(vstd::slice::slice_subrange(s, 36, 68));
    let object_value = vstd::bytes::u64_from_le_bytes(vstd::slice::slice_subrange(s, 68, 76));
    let status = vstd::bytes::u64_from_le_bytes(vstd::slice::slice_subrange(s, 84, 92));
    let owner_name = vstd::slice::slice_to_vec(vstd::slice::slice_subrange(s, 92, total - 64));
    if !is_valid_utf8(&owner_name) {
        return Err(DecodeError::BadOwnerName);
    }
    let signature = vstd::slice::slice_to_vec(vstd::slice::slice_subrange(s, total - 64, total));
    if kind == TX_CREATE_PROPERTY_ID {
        Ok(
            ServiceTransaction::Create(
                TxCreateProperty {
                    property_id,
                    registrator_id,
                    object_value,
                    owner_name,
                    status,
                    signature,
                },
            ),
        )
    } else {
        Ok(
            ServiceTransaction::ChangeStatus(
                TxChangeStatus {
                    property_id,
                    registrator_id,
                    object_value,
                    owner_name,
                    status,
                    signature,
                },
            ),
        )
    }
}

/// Law: decoding the wire encoding of a well-formed transaction whose owner
/// name is text yields the tag and fields that were encoded — the codec
/// loses nothing.
#[verifier::rlimit(50)]
pub proof fn lemma_encode_decode(kind: u16, t: TxSpec)
    requires
        t.wf(),
        vstd::utf8::valid_utf8(t.owner_name),
        kind == TX_CREATE_PROPERTY_ID || kind == TX_TRANSFER_ID,
    ensures
        spec_decode(spec_encode(kind, t)) == Ok::<(u16, TxSpec), DecodeError>((kind, t)),
{
    vstd::bytes::lemma_auto_spec_u16_to_from_le_bytes();
    vstd::bytes::lemma_auto_spec_u32_to_from_le_bytes();
    vstd::bytes::lemma_auto_spec_u64_to_from_le_bytes();
    let b = spec_encode(kind, t);
    let p0 = vstd::bytes::spec_u16_to_le_bytes(SERVICE_ID);
    let p1 = vstd::bytes::spec_u16_to_le_bytes(kind);
    let p4 = vstd::bytes::spec_u64_to_le_bytes(t.object_value);
    let p5 = vstd::bytes::spec_u32_to_le_bytes(NAME_SEGMENT_OFFSET);
    let p6 = vstd::bytes::spec_u32_to_le_bytes(t.owner_name.len() as u32);
    let p7 = vstd::bytes::spec_u64_to_le_bytes(t.status);
    assert(b.len() == 156 + t.owner_name.len());
    assert(b.subrange(0, 2) =~= p0);
    assert(b.subrange(2, 4) =~= p1);
    assert(b.subrange(4, 36) =~= t.property_id);
    assert(b.subrange(36, 68) =~= t.registrator_id);
    assert(b.subrange(68, 76) =~= p4);
    assert(b.subrange(76, 80) =~= p5);
    assert(b.subrange(80, 84) =~= p6);
    assert(b.subrange(84, 92) =~= p7);
    assert(b.subrange(92, b.len() - 64) =~= t.owner_name);
    assert(b.subrange(b.len() - 64, b.len() as int) =~= t.signature);
}

/// Law: re-encoding a message that decodes successfully yields the original
/// bytes, byte for byte — codec fidelity.
#[verifier::rlimit(50)]
pub proof fn lemma_decode_encode(b: Seq<u8>)
    requires
        spec_decode(b) is Ok,
    ensures
        spec_encode((spec_decode(b)->Ok_0).0, (spec_decode(b)->Ok_0).1) == b,
{
    vstd::bytes::lemma_auto_spec_u16_to_from_le_bytes();
    vstd::bytes::lemma_auto_spec_u32_to_from_le_bytes();
    vstd::bytes::lemma_auto_spec_u64_to_from_le_bytes();
    let kind = (spec_decode(b)->Ok_0).0;
    let t = (spec_decode(b)->Ok_0).1;
    assert(vstd::bytes::spec_u16_to_le_bytes(SERVICE_ID) =~= b.subrange(0, 2));
    assert(vstd::bytes::spec_u16_to_le_bytes(kind) =~= b.subrange(2, 4));
    assert(vstd::bytes::spec_u64_to_le_bytes(t.object_value) =~= b.subrange(68, 76));
    assert(vstd::bytes::spec_u32_to_le_bytes(NAME_SEGMENT_OFFSET) =~= b.subrange(76, 80));
    assert(vstd::bytes::spec_u32_to_le_bytes(t.owner_name.len() as u32) =~= b.subrange(80, 84));
    assert(vstd::bytes::spec_u64_to_le_bytes(t.status) =~= b.subrange(84, 92));
    assert(spec_encode(kind, t) =~= b);
}

} // verus!
