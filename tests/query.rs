use std::sync::Arc;

use peaq_did_rpc::error::UNAVAILABLE_MESSAGE;
use peaq_did_rpc::{resolve_at, translate_outcome, Attribute, Error, PeaqDID, RPCAttribute, ServiceError};

type Hash = u64;

/// A ledger holding one attribute for account 0xAA, written at block 50.
fn ledger_read(
    at: Hash,
    account: u8,
    name: &[u8],
    failing: bool,
) -> Result<Option<Attribute<u32, u64>>, String> {
    if failing {
        return Err("ApiError(\"runtime unavailable\")".to_string());
    }
    if account == 0xAA && name == b"email" && at >= 50 {
        Ok(Some(Attribute {
            name: b"email".to_vec(),
            value: b"a@b.com".to_vec(),
            validity: 100,
            created: 50,
        }))
    } else {
        Ok(None)
    }
}

fn query(
    at: Option<Hash>,
    best: Hash,
    account: u8,
    name: &[u8],
    failing: bool,
) -> Result<Option<RPCAttribute<u32, u64>>, ServiceError> {
    let snapshot = resolve_at(at, best);
    translate_outcome(ledger_read(snapshot, account, name, failing))
}

#[test]
fn scenario_present_at_snapshot_200() {
    let r = query(Some(200), 300, 0xAA, b"email", false).unwrap().unwrap();
    assert_eq!(r.name, b"email".to_vec());
    assert_eq!(r.value, b"a@b.com".to_vec());
    assert_eq!(r.validity, 100);
    assert_eq!(r.created, 50);
}

#[test]
fn scenario_absent_before_creation() {
    assert_eq!(query(Some(10), 300, 0xAA, b"email", false), Ok(None));
}

#[test]
fn scenario_runtime_failure_has_code_one() {
    let e = query(Some(200), 300, 0xAA, b"email", true).unwrap_err();
    assert_eq!(e.code, 1);
}

#[test]
fn never_written_name_is_absent() {
    assert_eq!(query(Some(200), 300, 0xAA, b"phone", false), Ok(None));
    assert_eq!(query(Some(200), 300, 0xBB, b"email", false), Ok(None));
}

#[test]
fn empty_name_is_a_literal_key() {
    assert_eq!(query(Some(200), 300, 0xAA, b"", false), Ok(None));
}

#[test]
fn repeated_query_at_fixed_snapshot_is_identical() {
    let first = query(Some(200), 300, 0xAA, b"email", false);
    let second = query(Some(200), 900, 0xAA, b"email", false);
    assert_eq!(first, second);
    let f1 = query(Some(200), 300, 0xAA, b"email", true).unwrap_err();
    let f2 = query(Some(200), 900, 0xAA, b"email", true).unwrap_err();
    assert_eq!(f1.code, f2.code);
}

#[test]
fn omitted_snapshot_uses_best_block() {
    assert_eq!(resolve_at(None, 42u64), 42);
    assert_eq!(resolve_at(Some(7u64), 42u64), 7);
    assert_eq!(query(None, 10, 0xAA, b"email", false), Ok(None));
    assert!(query(None, 200, 0xAA, b"email", false).unwrap().is_some());
}

#[test]
fn failure_code_does_not_depend_on_account_or_name() {
    let a = query(Some(200), 300, 0xAA, b"email", true).unwrap_err();
    let b = query(Some(5), 300, 0x01, b"", true).unwrap_err();
    assert_eq!(a.code, 1);
    assert_eq!(b.code, 1);
}

#[test]
fn runtime_failure_carries_message_and_cause() {
    let e = translate_outcome::<u32, u64>(Err("boom".to_string())).unwrap_err();
    assert_eq!(e.code, 1);
    assert_eq!(e.message, "Unable to get value.");
    assert_eq!(e.message, UNAVAILABLE_MESSAGE);
    assert_eq!(e.data, Some("boom".to_string()));
    assert_eq!(e, ServiceError::runtime_failure("boom".to_string()));
}

#[test]
fn runtime_error_code_is_one() {
    assert_eq!(i64::from(Error::RuntimeError), 1);
}

#[test]
fn attribute_converts_field_by_field() {
    let item = Attribute { name: vec![0u8, 255], value: vec![], validity: 7u32, created: 9u64 };
    let r = RPCAttribute::from(item);
    assert_eq!(r, RPCAttribute { name: vec![0u8, 255], value: vec![], validity: 7u32, created: 9u64 });
}

#[test]
fn service_keeps_its_client() {
    let client = Arc::new(5u32);
    let service: PeaqDID<u32, ()> = PeaqDID::new(client.clone());
    assert!(Arc::ptr_eq(service.client(), &client));
    assert_eq!(**service.client(), 5);
}
