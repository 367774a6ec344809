//! The query/submission API's decisions, free of any HTTP plumbing.
//!
//! The host's web layer parses requests, hands this module plain values, and
//! turns the results into responses: a successful value becomes an OK
//! response, `NotFound` a not-found response, the rest client or server
//! errors. Submission is fire and forget: the reconstructed transaction is
//! handed to the host's transaction channel, and only the host later
//! verifies and executes it inside a block.
use vstd::prelude::*;
use vstd::string::StringSliceAdditionalSpecFns;

use crate::bytes::key_lt;
use crate::property::Property;
use crate::schema::{lookup, PropertySchema, PropertyStore};
use crate::tx::{ServiceTransaction, TxChangeStatus, TxCreateProperty};
use crate::KEY_LEN;

verus! {

/// Why an API request fails.
#[derive(Clone, Copy, Debug, PartialEq, Eq, Structural)]
pub enum ApiError {
    /// The request body is empty or holds no known transaction shape.
    IncorrectRequest,
    /// The identity key in the path is not valid hex for a 32-byte value.
    FromHex,
    /// No data answers the request: the record is absent, or no record at
    /// all exists for a list request.
    NotFound,
    /// The host could not dispatch the submission.
    InternalError,
}

/// Whether byte `c` is an ASCII hex digit.
pub open spec fn is_hex_digit(c: u8) -> bool {
    (48 <= c && c <= 57) || (97 <= c && c <= 102) || (65 <= c && c <= 70)
}

/// Value of the ASCII hex digit `c`.
pub open spec fn hex_digit_val(c: u8) -> u8
    recommends
        is_hex_digit(c),
{
    if 48 <= c && c <= 57 {
        (c - 48) as u8
    } else if 97 <= c && c <= 102 {
        (c - 87) as u8
    } else {
        (c - 55) as u8
    }
}

/// The bytes a hex string denotes: each pair of digits one byte, high
/// nibble first.
pub open spec fn spec_hex_decode(s: Seq<u8>) -> Seq<u8> {
    Seq::new(
        s.len() / 2,
        |i: int| (hex_digit_val(s[2 * i]) * 16 + hex_digit_val(s[2 * i + 1])) as u8,
    )
}

/// Whether `s` spells a 32-byte identity key: exactly 64 hex digits.
pub open spec fn valid_hex_key(s: Seq<u8>) -> bool {
    &&& s.len() == 64
    &&& forall|i: int| 0 <= i < s.len() ==> is_hex_digit(#[trigger] s[i])
}

/// Converts one ASCII hex digit, or rejects the byte.
fn hex_val(c: u8) -> (r: Option<u8>)
    ensures
        match r {
            Some(v) => is_hex_digit(c) && v == hex_digit_val(c),
            None => !is_hex_digit(c),
        },
{
    if 48 <= c && c <= 57 {
        Some(c - 48)
    } else if 97 <= c && c <= 102 {
        Some(c - 87)
    } else if 65 <= c && c <= 70 {
        Some(c - 55)
    } else {
        None
    }
}

/// Decodes the hex-spelled identity key of a query path. Exactly the
/// strings of 64 hex digits are accepted; anything else is the client's
/// error.
pub fn decode_hex_key(s: &str) -> (r: Result<Vec<u8>, ApiError>)
    ensures
        match r {
            Ok(k) => {
                &&& valid_hex_key(s.spec_bytes())
                &&& k@ == spec_hex_decode(s.spec_bytes())
                &&& k@.len() == KEY_LEN
            },
            Err(e) => !valid_hex_key(s.spec_bytes()) && e == ApiError::FromHex,
        },
{
    let b = s.as_bytes();
    if b.len() != 64 {
        return Err(ApiError::FromHex);
    }
    let mut out: Vec<u8> = Vec::new();
    let mut i: usize = 0;
    while i < 32
        invariant
            b@ == s.spec_bytes(),
            b@.len() == 64,
            i <= 32,
            out@.len() == i,
            forall|j: int| 0 <= j < 2 * i ==> is_hex_digit(#[trigger] b@[j]),
            forall|j: int|
                0 <= j < i ==> out@[j] == (hex_digit_val(b@[2 * j]) * 16 + hex_digit_val(
                    b@[2 * j + 1],
                )) as u8,
        decreases 32 - i,
    {
        let hi = hex_val(b[2 * i]);
        let lo = hex_val(b[2 * i + 1]);
        match (hi, lo) {
            (Some(h), Some(l)) => {
                out.push(h * 16 + l);
            },
            _ => {
                return Err(ApiError::FromHex);
            },
        }
        i = i + 1;
    }
    assert(out@ =~= spec_hex_decode(s.spec_bytes()));
    Ok(out)
}

/// The query side of the API: reads against a point-in-time snapshot view
/// of the store, never a mutation.
pub struct PropertyApi;

impl PropertyApi {
    /// Record under `pub_key` in the snapshot, or `None` if never created.
    pub fn get_property(&self, view: &PropertyStore, pub_key: &Vec<u8>) -> (r: Option<Property>)
        ensures
            match r {
                Some(p) => lookup(view@, pub_key@) == Some(p@),
                None => lookup(view@, pub_key@) is None,
            },
    {
        let schema = PropertySchema { view };
        schema.property(pub_key)
    }

    /// Every record in the snapshot, in the store's ascending key order —
    /// or `None` when no record exists yet: the absent list is a
    /// distinguished no-data result, not an empty list.
    pub fn get_properties(&self, view: &PropertyStore) -> (r: Option<Vec<Property>>)
        ensures
            match r {
                Some(v) => {
                    &&& view@.len() > 0
                    &&& v@.len() == view@.len()
                    &&& forall|i: int| 0 <= i < v@.len() ==> v@[i]@ == view@[i]
                    &&& view.wf() ==> forall|i: int, j: int|
                        0 <= i < j < v@.len() ==> key_lt(
                            (#[trigger] v@[i])@.property_id,
                            (#[trigger] v@[j])@.property_id,
                        )
                },
                None => view@.len() == 0,
            },
    {
        let schema = PropertySchema { view };
        let properties = schema.properties().values();
        if properties.len() == 0 {
            None
        } else {
            Some(properties)
        }
    }
}

/// Decision of the fetch-one-property route: decode the path's hex key,
/// then look the record up. Malformed hex is the client's error; a missing
/// record is reported not-found.
pub fn handle_get_property(view: &PropertyStore, pub_key_hex: &str) -> (r: Result<
    Property,
    ApiError,
>)
    ensures
        match r {
            Ok(p) => valid_hex_key(pub_key_hex.spec_bytes()) && lookup(
                view@,
                spec_hex_decode(pub_key_hex.spec_bytes()),
            ) == Some(p@),
            Err(e) => if valid_hex_key(pub_key_hex.spec_bytes()) {
                e == ApiError::NotFound && lookup(
                    view@,
                    spec_hex_decode(pub_key_hex.spec_bytes()),
                ) is None
            } else {
                e == ApiError::FromHex
            },
        },
{
    let api = PropertyApi;
    match decode_hex_key(pub_key_hex) {
        Ok(public_key) => match api.get_property(view, &public_key) {
            Some(property) => Ok(property),
            None => Err(ApiError::NotFound),
        },
        Err(e) => Err(e),
    }
}

/// Decision of the list route: all records in ascending key order, or
/// not-found while none exists.
pub fn handle_get_properties(view: &PropertyStore) -> (r: Result<Vec<Property>, ApiError>)
    ensures
        match r {
            Ok(v) => {
                &&& view@.len() > 0
                &&& v@.len() == view@.len()
                &&& forall|i: int| 0 <= i < v@.len() ==> v@[i]@ == view@[i]
                &&& view.wf() ==> forall|i: int, j: int|
                    0 <= i < j < v@.len() ==> key_lt(
                        (#[trigger] v@[i])@.property_id,
                        (#[trigger] v@[j])@.property_id,
                    )
            },
            Err(e) => e == ApiError::NotFound && view@.len() == 0,
        },
{
    let api = PropertyApi;
    match api.get_properties(view) {
        Some(properties) => Ok(properties),
        None => Err(ApiError::NotFound),
    }
}

/// An externally supplied transaction request: the two body shapes the
/// submission route accepts, told apart by an explicit tag.
pub enum TransactionRequest {
    /// A create-property request body.
    CreateProperty(TxCreateProperty),
    /// A change-status request body; "transfer" in the route's terms.
    Transfer(TxChangeStatus),
}

impl TransactionRequest {
    /// The transaction this request reconstructs.
    pub fn into_transaction(self) -> (r: ServiceTransaction)
        ensures
            r == (match self {
                TransactionRequest::CreateProperty(tx) => ServiceTransaction::Create(tx),
                TransactionRequest::Transfer(tx) => ServiceTransaction::ChangeStatus(tx),
            }),
    {
        match self {
            TransactionRequest::CreateProperty(tx) => ServiceTransaction::Create(tx),
            TransactionRequest::Transfer(tx) => ServiceTransaction::ChangeStatus(tx),
        }
    }
}

/// Decision of the submission route on a parsed body: an empty body is the
/// client's error; otherwise the request's transaction is reconstructed, to
/// be hashed and handed to the host's transaction channel.
pub fn handle_transaction(body: Option<TransactionRequest>) -> (r: Result<
    ServiceTransaction,
    ApiError,
>)
    ensures
        match r {
            Ok(tx) => body is Some && tx == (match body->Some_0 {
                TransactionRequest::CreateProperty(t) => ServiceTransaction::Create(t),
                TransactionRequest::Transfer(t) => ServiceTransaction::ChangeStatus(t),
            }),
            Err(e) => body is None && e == ApiError::IncorrectRequest,
        },
{
    match body {
        Some(request) => Ok(request.into_transaction()),
        None => Err(ApiError::IncorrectRequest),
    }
}

} // verus!
