use propertychain::api::{
    handle_get_properties, handle_get_property, handle_transaction, ApiError, PropertyApi,
    TransactionRequest,
};
use propertychain::codec::DecodeError;
use propertychain::property::Property;
use propertychain::schema::{PropertySchema, PropertyStore};
use propertychain::service::PropertyService;
use propertychain::tx::{
    process_transaction, ServiceTransaction, TxChangeStatus, TxCreateProperty,
};

fn key(fill: u8) -> Vec<u8> {
    vec![fill; 32]
}

fn sig(fill: u8) -> Vec<u8> {
    vec![fill; 64]
}

fn create_tx(k: u8, reg: u8, value: u64, name: &str, status: u64) -> TxCreateProperty {
    TxCreateProperty {
        property_id: key(k),
        registrator_id: key(reg),
        object_value: value,
        owner_name: name.as_bytes().to_vec(),
        status,
        signature: sig(0xaa),
    }
}

fn change_tx(k: u8, reg: u8, value: u64, name: &str, status: u64) -> TxChangeStatus {
    TxChangeStatus {
        property_id: key(k),
        registrator_id: key(reg),
        object_value: value,
        owner_name: name.as_bytes().to_vec(),
        status,
        signature: sig(0xbb),
    }
}

fn expect_decode_err(r: Result<ServiceTransaction, DecodeError>) -> DecodeError {
    match r {
        Err(e) => e,
        Ok(_) => panic!("decoding must fail"),
    }
}

fn expect_api_err<T>(r: Result<T, ApiError>) -> ApiError {
    match r {
        Err(e) => e,
        Ok(_) => panic!("the request must fail"),
    }
}

fn assert_record(p: &Property, k: u8, reg: u8, value: u64, name: &str, status: u64) {
    assert_eq!(p.property_id, key(k));
    assert_eq!(p.registrator_id, key(reg));
    assert_eq!(p.object_value, value);
    assert_eq!(p.owner_name, name.as_bytes().to_vec());
    assert_eq!(p.status, status);
}

#[test]
fn create_then_get_yields_submitted_fields_with_status_one() {
    let mut store = PropertyStore::new();
    let tx = create_tx(0x11, 0x22, 100, "Alice", 77);
    tx.execute(&mut store);
    let got = store.get(&key(0x11)).expect("record must exist after create");
    // the wire status 77 is not honored: creation stores status 1
    assert_record(&got, 0x11, 0x22, 100, "Alice", 1);
}

#[test]
fn second_create_leaves_stored_record_unchanged() {
    let mut store = PropertyStore::new();
    create_tx(0x11, 0x22, 100, "Alice", 1).execute(&mut store);
    create_tx(0x11, 0x33, 999, "Mallory", 1).execute(&mut store);
    let got = store.get(&key(0x11)).expect("record must still exist");
    assert_record(&got, 0x11, 0x22, 100, "Alice", 1);
    assert_eq!(store.len(), 1);
}

#[test]
fn change_status_then_get_yields_exactly_the_new_fields_with_status_two() {
    let mut store = PropertyStore::new();
    create_tx(0x11, 0x22, 100, "Alice", 1).execute(&mut store);
    change_tx(0x11, 0x44, 200, "Bob", 55).execute(&mut store);
    let got = store.get(&key(0x11)).expect("record must exist");
    // every field comes from the change transaction; status is forced to 2
    assert_record(&got, 0x11, 0x44, 200, "Bob", 2);
    assert_eq!(store.len(), 1);
}

#[test]
fn change_status_on_never_created_key_creates_the_record() {
    let mut store = PropertyStore::new();
    change_tx(0x77, 0x44, 200, "Bob", 1).execute(&mut store);
    let got = store.get(&key(0x77)).expect("record must exist");
    assert_record(&got, 0x77, 0x44, 200, "Bob", 2);
}

#[test]
fn get_unknown_key_is_absent() {
    let mut store = PropertyStore::new();
    create_tx(0x11, 0x22, 100, "Alice", 1).execute(&mut store);
    assert!(store.get(&key(0x99)).is_none());
}

#[test]
fn schema_reads_through_borrowed_view() {
    let mut store = PropertyStore::new();
    create_tx(0x11, 0x22, 100, "Alice", 1).execute(&mut store);
    let schema = PropertySchema { view: &store };
    let got = schema.property(&key(0x11)).expect("record must exist");
    assert_record(&got, 0x11, 0x22, 100, "Alice", 1);
    assert!(schema.property(&key(0x12)).is_none());
}

#[test]
fn rejected_signature_never_mutates_the_store() {
    let mut store = PropertyStore::new();
    let tx = ServiceTransaction::Create(create_tx(0x11, 0x22, 100, "Alice", 1));
    let ran = process_transaction(&mut store, &tx, false);
    assert!(!ran);
    assert_eq!(store.len(), 0);
    assert!(store.get(&key(0x11)).is_none());
}

#[test]
fn accepted_signature_runs_the_create() {
    let mut store = PropertyStore::new();
    let tx = ServiceTransaction::Create(create_tx(0x11, 0x22, 100, "Alice", 1));
    let ran = process_transaction(&mut store, &tx, true);
    assert!(ran);
    assert_eq!(store.len(), 1);
}

#[test]
fn change_status_needs_no_signature_verdict() {
    let mut store = PropertyStore::new();
    let tx = ServiceTransaction::ChangeStatus(change_tx(0x11, 0x22, 100, "Alice", 1));
    // even a failing signature check does not stop a change-status
    let ran = process_transaction(&mut store, &tx, false);
    assert!(ran);
    assert_eq!(store.len(), 1);
}

#[test]
fn list_returns_every_record_after_distinct_creates() {
    let mut store = PropertyStore::new();
    create_tx(0x01, 0x22, 1, "Alice", 1).execute(&mut store);
    create_tx(0x02, 0x22, 2, "Bob", 1).execute(&mut store);
    create_tx(0x03, 0x22, 3, "Carol", 1).execute(&mut store);
    let api = PropertyApi;
    let all = api.get_properties(&store).expect("list must exist");
    assert_eq!(all.len(), 3);
    assert_record(&all[0], 0x01, 0x22, 1, "Alice", 1);
    assert_record(&all[1], 0x02, 0x22, 2, "Bob", 1);
    assert_record(&all[2], 0x03, 0x22, 3, "Carol", 1);
}

#[test]
fn list_reflects_the_last_written_value() {
    let mut store = PropertyStore::new();
    create_tx(0x01, 0x22, 1, "Alice", 1).execute(&mut store);
    create_tx(0x02, 0x22, 2, "Bob", 1).execute(&mut store);
    change_tx(0x01, 0x33, 10, "Alicia", 1).execute(&mut store);
    let api = PropertyApi;
    let all = api.get_properties(&store).expect("list must exist");
    assert_eq!(all.len(), 2);
    assert_record(&all[0], 0x01, 0x33, 10, "Alicia", 2);
    assert_record(&all[1], 0x02, 0x22, 2, "Bob", 1);
}

#[test]
fn list_stands_in_ascending_key_order_whatever_the_write_order() {
    let mut store = PropertyStore::new();
    create_tx(0x02, 0x22, 2, "Bob", 1).execute(&mut store);
    create_tx(0x01, 0x22, 1, "Alice", 1).execute(&mut store);
    create_tx(0x03, 0x22, 3, "Carol", 1).execute(&mut store);
    let api = PropertyApi;
    let all = api.get_properties(&store).expect("list must exist");
    assert_eq!(all.len(), 3);
    assert_record(&all[0], 0x01, 0x22, 1, "Alice", 1);
    assert_record(&all[1], 0x02, 0x22, 2, "Bob", 1);
    assert_record(&all[2], 0x03, 0x22, 3, "Carol", 1);
}

#[test]
fn empty_list_is_reported_as_not_found() {
    let store = PropertyStore::new();
    let api = PropertyApi;
    assert!(api.get_properties(&store).is_none());
    assert_eq!(expect_api_err(handle_get_properties(&store)), ApiError::NotFound);
}

#[test]
fn property_change_status_replaces_only_the_status() {
    let p = Property::new(key(0x11), key(0x22), 100, b"Alice".to_vec(), 1);
    let q = p.changeStatus(2);
    assert_record(&q, 0x11, 0x22, 100, "Alice", 2);
}

#[test]
fn codec_round_trips_both_kinds() {
    let create = ServiceTransaction::Create(create_tx(0x11, 0x22, 100, "Alice", 7));
    let change = ServiceTransaction::ChangeStatus(change_tx(0x31, 0x42, 5, "Bob", 9));
    let service = PropertyService;
    for tx in [create, change] {
        let raw = tx.encode();
        let decoded = service.tx_from_raw(&raw).expect("encoded message must decode");
        let again = decoded.encode();
        assert_eq!(again, raw);
        match (&tx, &decoded) {
            (ServiceTransaction::Create(a), ServiceTransaction::Create(b)) => {
                assert_eq!(a.property_id, b.property_id);
                assert_eq!(a.registrator_id, b.registrator_id);
                assert_eq!(a.object_value, b.object_value);
                assert_eq!(a.owner_name, b.owner_name);
                assert_eq!(a.status, b.status);
                assert_eq!(a.signature, b.signature);
            }
            (ServiceTransaction::ChangeStatus(a), ServiceTransaction::ChangeStatus(b)) => {
                assert_eq!(a.property_id, b.property_id);
                assert_eq!(a.signature, b.signature);
                assert_eq!(a.owner_name, b.owner_name);
            }
            _ => panic!("decoded transaction has the wrong kind"),
        }
    }
}

#[test]
fn codec_keeps_an_empty_owner_name() {
    let tx = ServiceTransaction::Create(create_tx(0x11, 0x22, 0, "", 0));
    let raw = tx.encode();
    assert_eq!(raw.len(), 156);
    let service = PropertyService;
    let decoded = service.tx_from_raw(&raw).expect("must decode");
    match decoded {
        ServiceTransaction::Create(t) => assert!(t.owner_name.is_empty()),
        _ => panic!("wrong kind"),
    }
}

#[test]
fn wire_layout_matches_the_documented_offsets() {
    let tx = ServiceTransaction::Create(create_tx(0x11, 0x22, 0x0102030405060708, "Hi", 5));
    let raw = tx.encode();
    assert_eq!(raw.len(), 158);
    assert_eq!(&raw[0..4], &[1, 0, 1, 0]); // service 1, then kind 1, little endian
    assert_eq!(&raw[4..36], &key(0x11)[..]);
    assert_eq!(&raw[36..68], &key(0x22)[..]);
    assert_eq!(&raw[68..76], &[8, 7, 6, 5, 4, 3, 2, 1]); // object value, little endian
    assert_eq!(&raw[76..80], &[88, 0, 0, 0]); // name offset within the payload
    assert_eq!(&raw[80..84], &[2, 0, 0, 0]); // name length
    assert_eq!(&raw[84..92], &[5, 0, 0, 0, 0, 0, 0, 0]); // wire status, kept in the bytes
    assert_eq!(&raw[92..94], b"Hi");
    assert_eq!(&raw[94..158], &sig(0xaa)[..]);
    let tx2 = ServiceTransaction::ChangeStatus(change_tx(0x11, 0x22, 0, "", 0));
    assert_eq!(tx2.encode()[2..4], [2, 0]);
}

#[test]
fn unknown_message_kind_is_rejected_with_its_tag() {
    let tx = ServiceTransaction::Create(create_tx(0x11, 0x22, 100, "Alice", 1));
    let mut raw = tx.encode();
    raw[2] = 9;
    raw[3] = 0;
    let service = PropertyService;
    assert_eq!(
        expect_decode_err(service.tx_from_raw(&raw)),
        DecodeError::IncorrectMessageType { message_type: 9 }
    );
}

#[test]
fn foreign_service_identifier_is_rejected() {
    let tx = ServiceTransaction::Create(create_tx(0x11, 0x22, 100, "Alice", 1));
    let mut raw = tx.encode();
    raw[0] = 3;
    let service = PropertyService;
    assert_eq!(
        expect_decode_err(service.tx_from_raw(&raw)),
        DecodeError::WrongService { service_id: 3 }
    );
}

#[test]
fn truncated_message_is_rejected() {
    let service = PropertyService;
    let raw = vec![0u8; 155];
    assert_eq!(expect_decode_err(service.tx_from_raw(&raw)), DecodeError::Truncated);
}

#[test]
fn mismatched_name_segment_is_rejected() {
    let tx = ServiceTransaction::Create(create_tx(0x11, 0x22, 100, "Alice", 1));
    let mut raw = tx.encode();
    // corrupt the name-length field
    raw[80] = raw[80].wrapping_add(1);
    let service = PropertyService;
    assert_eq!(expect_decode_err(service.tx_from_raw(&raw)), DecodeError::BadSegment);
}

#[test]
fn codec_carries_a_name_beyond_ascii() {
    let tx = ServiceTransaction::Create(create_tx(0x11, 0x22, 1, "Renée", 1));
    let raw = tx.encode();
    let service = PropertyService;
    let decoded = service.tx_from_raw(&raw).expect("valid UTF-8 name must decode");
    match decoded {
        ServiceTransaction::Create(t) => assert_eq!(t.owner_name, "Renée".as_bytes().to_vec()),
        _ => panic!("wrong kind"),
    }
}

#[test]
fn name_bytes_that_are_not_utf8_are_rejected() {
    let tx = ServiceTransaction::Create(create_tx(0x11, 0x22, 1, "Hi", 1));
    let mut raw = tx.encode();
    // corrupt one name byte into a lone continuation byte
    raw[92] = 0xff;
    let service = PropertyService;
    assert_eq!(
        expect_decode_err(service.tx_from_raw(&raw)),
        DecodeError::BadOwnerName
    );
}

#[test]
fn get_property_route_finds_a_stored_record() {
    let mut store = PropertyStore::new();
    create_tx(0x11, 0x22, 100, "Alice", 1).execute(&mut store);
    let hex = "11".repeat(32);
    let got = handle_get_property(&store, &hex).expect("route must find the record");
    assert_record(&got, 0x11, 0x22, 100, "Alice", 1);
}

#[test]
fn get_property_route_accepts_upper_case_hex() {
    let mut store = PropertyStore::new();
    create_tx(0xab, 0x22, 100, "Alice", 1).execute(&mut store);
    let got = handle_get_property(&store, &"AB".repeat(32)).expect("upper-case hex must work");
    assert_record(&got, 0xab, 0x22, 100, "Alice", 1);
}

#[test]
fn get_property_route_reports_unknown_key_as_not_found() {
    let store = PropertyStore::new();
    let hex = "ab".repeat(32);
    assert_eq!(expect_api_err(handle_get_property(&store, &hex)), ApiError::NotFound);
}

#[test]
fn get_property_route_rejects_malformed_hex() {
    let mut store = PropertyStore::new();
    create_tx(0x11, 0x22, 100, "Alice", 1).execute(&mut store);
    assert_eq!(expect_api_err(handle_get_property(&store, "zz")), ApiError::FromHex);
    assert_eq!(
        expect_api_err(handle_get_property(&store, &"1".repeat(63))),
        ApiError::FromHex
    );
    assert_eq!(
        expect_api_err(handle_get_property(&store, &"1g".repeat(32))),
        ApiError::FromHex
    );
}

#[test]
fn submission_route_rejects_an_empty_body() {
    assert!(matches!(
        handle_transaction(None),
        Err(ApiError::IncorrectRequest)
    ));
}

#[test]
fn submission_route_reconstructs_the_transaction() {
    let body = TransactionRequest::CreateProperty(create_tx(0x11, 0x22, 100, "Alice", 1));
    match handle_transaction(Some(body)) {
        Ok(ServiceTransaction::Create(t)) => assert_eq!(t.object_value, 100),
        _ => panic!("create body must become a create transaction"),
    }
    let body = TransactionRequest::Transfer(change_tx(0x11, 0x22, 100, "Alice", 1));
    match handle_transaction(Some(body)) {
        Ok(ServiceTransaction::ChangeStatus(t)) => assert_eq!(t.object_value, 100),
        _ => panic!("transfer body must become a change-status transaction"),
    }
}

#[test]
fn service_reports_its_identity() {
    let service = PropertyService;
    assert_eq!(service.service_name(), "property");
    assert_eq!(service.service_id(), 1);
}
