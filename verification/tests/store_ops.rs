//! The record store's operations: distinguishable not-found, partial-update
//! semantics, and idempotent provisioning.

use user_store::AttrValue;
use user_store::AttributeMap;
use user_store::BillingKind;
use user_store::ScalarKind;
use user_store::Store;
use user_store::StoreError;
use user_store::UpdateUser;
use user_store::get_user_internal;
use user_store::update_user;

fn provisioned_store() -> Store {
    let mut store = Store::new();
    store.ensure_schema().expect("provisioning must succeed");
    store
}

fn item_ada() -> AttributeMap {
    let mut m = AttributeMap::new();
    m.set("uid".to_owned(), AttrValue::S("id-1".to_owned()));
    m.set("firstName".to_owned(), AttrValue::S("Ada".to_owned()));
    m.set("lastName".to_owned(), AttrValue::S("Lovelace".to_owned()));
    m
}

#[test]
fn fetch_nonexistent_is_not_found() {
    let store = provisioned_store();
    let err = store.fetch("no-such-id").unwrap_err();
    assert_eq!(err, StoreError::NotFound);
    assert_ne!(err, StoreError::Transport("Not found".to_owned()));
}

#[test]
fn get_user_internal_distinguishes_not_found() {
    let store = provisioned_store();
    match get_user_internal(&store, "no-such-id") {
        Err(StoreError::NotFound) => {},
        other => panic!("expected NotFound, got {:?}", other),
    }
}

#[test]
fn empty_update_leaves_item_identical() {
    let mut store = provisioned_store();
    store.insert("id-1".to_owned(), item_ada()).unwrap();
    let before = store.fetch("id-1").unwrap().clone();
    let empty = AttributeMap::new();
    store.partial_update("id-1", empty).unwrap();
    let after = store.fetch("id-1").unwrap();
    assert_eq!(&before, after);
}

#[test]
fn empty_update_payload_reports_success() {
    let mut store = provisioned_store();
    store.insert("id-1".to_owned(), item_ada()).unwrap();
    let before = store.fetch("id-1").unwrap().clone();
    let response = update_user(
        &mut store,
        "id-1",
        UpdateUser { first_name: None, last_name: None },
    );
    match response {
        user_store::Response::Success(msg) => assert_eq!(msg, "Updated"),
        user_store::Response::Failure(e) => panic!("unexpected failure: {}", e.message),
    }
    assert_eq!(&before, store.fetch("id-1").unwrap());
}

#[test]
fn partial_update_changes_only_mentioned_field() {
    let mut store = provisioned_store();
    store.insert("id-1".to_owned(), item_ada()).unwrap();
    let mut deltas = AttributeMap::new();
    deltas.set("firstName".to_owned(), AttrValue::S("X".to_owned()));
    store.partial_update("id-1", deltas).unwrap();
    let item = store.fetch("id-1").unwrap();
    assert_eq!(item.get("firstName"), Some(&AttrValue::S("X".to_owned())));
    assert_eq!(item.get("lastName"), Some(&AttrValue::S("Lovelace".to_owned())));
    assert_eq!(item.get("uid"), Some(&AttrValue::S("id-1".to_owned())));
}

#[test]
fn update_of_missing_item_creates_it_with_its_key() {
    let mut store = provisioned_store();
    let mut deltas = AttributeMap::new();
    deltas.set("lastName".to_owned(), AttrValue::S("King".to_owned()));
    store.partial_update("id-9", deltas).unwrap();
    let item = store.fetch("id-9").unwrap();
    assert_eq!(item.get("uid"), Some(&AttrValue::S("id-9".to_owned())));
    assert_eq!(item.get("lastName"), Some(&AttrValue::S("King".to_owned())));
    assert_eq!(item.get("firstName"), None);
}

#[test]
fn provisioning_twice_succeeds_and_keeps_one_table() {
    let mut store = Store::new();
    assert_eq!(store.table_count(), 0);
    store.ensure_schema().expect("first provisioning must succeed");
    store.ensure_schema().expect("second provisioning must succeed");
    assert_eq!(store.table_count(), 1);
    let table = store.table("users").expect("the required table must exist");
    assert_eq!(table.name, "users");
    assert_eq!(table.hash_key, "uid");
    assert_eq!(table.hash_key_kind, ScalarKind::S);
    assert_eq!(table.billing, BillingKind::PayPerRequest);
}

#[test]
fn provisioning_does_not_disturb_records() {
    let mut store = provisioned_store();
    store.insert("id-1".to_owned(), item_ada()).unwrap();
    let before = store.fetch("id-1").unwrap().clone();
    store.ensure_schema().expect("re-provisioning must succeed");
    assert_eq!(store.table_count(), 1);
    assert_eq!(&before, store.fetch("id-1").unwrap());
}
