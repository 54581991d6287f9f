//! End-to-end scenario over the service operations, the update plan a live
//! backend would be sent, and the outcome translations.

use user_store::AttrValue;
use user_store::AttributeMap;
use user_store::CreateUser;
use user_store::ProvisionEvent;
use user_store::Response;
use user_store::Store;
use user_store::StoreError;
use user_store::UpdateUser;
use user_store::create_user;
use user_store::fetch_outcome;
use user_store::get_user;
use user_store::provision_outcome;
use user_store::update_plan;
use user_store::update_user;

#[test]
fn create_fetch_update_fetch() {
    let mut store = Store::new();
    store.ensure_schema().expect("provisioning must succeed");

    let input = CreateUser { first_name: "Ada".to_owned(), last_name: "Lovelace".to_owned() };
    let id = match create_user(&mut store, input) {
        Response::Success(id) => id,
        Response::Failure(e) => panic!("create failed: {}", e.message),
    };
    assert_eq!(id.len(), 36);

    match get_user(&store, &id) {
        Response::Success(u) => {
            assert_eq!(u.first_name, Some("Ada".to_owned()));
            assert_eq!(u.last_name, Some("Lovelace".to_owned()));
        },
        Response::Failure(e) => panic!("fetch failed: {}", e.message),
    }

    let update = UpdateUser { first_name: None, last_name: Some("King".to_owned()) };
    match update_user(&mut store, &id, update) {
        Response::Success(msg) => assert_eq!(msg, "Updated"),
        Response::Failure(e) => panic!("update failed: {}", e.message),
    }

    match get_user(&store, &id) {
        Response::Success(u) => {
            assert_eq!(u.first_name, Some("Ada".to_owned()));
            assert_eq!(u.last_name, Some("King".to_owned()));
        },
        Response::Failure(e) => panic!("fetch after update failed: {}", e.message),
    }
}

#[test]
fn two_creates_store_two_records() {
    let mut store = Store::new();
    store.ensure_schema().expect("provisioning must succeed");
    let a = CreateUser { first_name: "Ada".to_owned(), last_name: "Lovelace".to_owned() };
    let b = CreateUser { first_name: "Alan".to_owned(), last_name: "Turing".to_owned() };
    let id_a = match create_user(&mut store, a) {
        Response::Success(id) => id,
        Response::Failure(e) => panic!("create failed: {}", e.message),
    };
    let id_b = match create_user(&mut store, b) {
        Response::Success(id) => id,
        Response::Failure(e) => panic!("create failed: {}", e.message),
    };
    assert_ne!(id_a, id_b);
    assert!(store.fetch(&id_a).is_ok());
    assert!(store.fetch(&id_b).is_ok());
}

#[test]
fn get_user_unknown_id_reports_not_found() {
    let mut store = Store::new();
    store.ensure_schema().expect("provisioning must succeed");
    match get_user(&store, "no-such-id") {
        Response::Failure(e) => assert_eq!(e.message, "Not found"),
        Response::Success(_) => panic!("expected a failure envelope"),
    }
}

#[test]
fn update_plan_reflects_present_fields() {
    let both = UpdateUser {
        first_name: Some("Ada".to_owned()),
        last_name: Some("King".to_owned()),
    };
    let plan = update_plan(&both).expect("two fields compose a plan");
    assert_eq!(plan.expression, "SET firstName = :firstName, lastName = :lastName");
    assert_eq!(plan.values.get(":firstName"), Some(&AttrValue::S("Ada".to_owned())));
    assert_eq!(plan.values.get(":lastName"), Some(&AttrValue::S("King".to_owned())));

    let first_only = UpdateUser { first_name: Some("X".to_owned()), last_name: None };
    let plan = update_plan(&first_only).expect("one field composes a plan");
    assert_eq!(plan.expression, "SET firstName = :firstName");
    assert_eq!(plan.values.get(":lastName"), None);

    let last_only = UpdateUser { first_name: None, last_name: Some("Y".to_owned()) };
    let plan = update_plan(&last_only).expect("one field composes a plan");
    assert_eq!(plan.expression, "SET lastName = :lastName");
    assert_eq!(plan.values.get(":firstName"), None);

    let none = UpdateUser { first_name: None, last_name: None };
    assert!(update_plan(&none).is_none());
}

#[test]
fn provision_outcome_treats_existing_table_as_success() {
    assert_eq!(provision_outcome(ProvisionEvent::Created), Ok(()));
    assert_eq!(provision_outcome(ProvisionEvent::AlreadyExists), Ok(()));
    let err = provision_outcome(ProvisionEvent::Failed("limit exceeded".to_owned()))
        .expect_err("a backend fault is fatal");
    assert_eq!(err.message, "limit exceeded");
}

#[test]
fn fetch_outcome_translates_both_cases() {
    assert_eq!(fetch_outcome(None), Err(StoreError::NotFound));
    let mut m = AttributeMap::new();
    m.set("firstName".to_owned(), AttrValue::S("Ada".to_owned()));
    let user = fetch_outcome(Some(m)).expect("an item decodes to a user");
    assert_eq!(user.first_name, Some("Ada".to_owned()));
    assert_eq!(user.last_name, None);
}

#[test]
fn transport_error_message_is_preserved() {
    let err = StoreError::Transport("connection refused".to_owned());
    assert_eq!(err.message(), "connection refused");
    assert_eq!(StoreError::NotFound.message(), "Not found");
}
