//! Round-trip fidelity and lenient decoding of the attribute codec.

use user_store::AttrValue;
use user_store::AttributeMap;
use user_store::User;
use user_store::decode;
use user_store::encode;

fn round_trip(first: Option<&str>, last: Option<&str>) {
    let user = User {
        first_name: first.map(|s| s.to_owned()),
        last_name: last.map(|s| s.to_owned()),
    };
    let encoded = encode(&user);
    let fields = decode(&encoded);
    assert_eq!(fields.first_name, user.first_name);
    assert_eq!(fields.last_name, user.last_name);
}

#[test]
fn round_trip_both_present() {
    round_trip(Some("Ada"), Some("Lovelace"));
}

#[test]
fn round_trip_first_only() {
    round_trip(Some("Ada"), None);
}

#[test]
fn round_trip_last_only() {
    round_trip(None, Some("Lovelace"));
}

#[test]
fn round_trip_both_absent() {
    round_trip(None, None);
}

#[test]
fn round_trip_empty_strings() {
    round_trip(Some(""), Some(""));
}

#[test]
fn non_string_first_name_decodes_absent() {
    let mut m = AttributeMap::new();
    m.set("firstName".to_owned(), AttrValue::N("42".to_owned()));
    m.set("lastName".to_owned(), AttrValue::S("Lovelace".to_owned()));
    let fields = decode(&m);
    assert_eq!(fields.first_name, None);
    assert_eq!(fields.last_name, Some("Lovelace".to_owned()));
}

#[test]
fn boolean_attribute_decodes_absent() {
    let mut m = AttributeMap::new();
    m.set("firstName".to_owned(), AttrValue::Bool(true));
    let fields = decode(&m);
    assert_eq!(fields.first_name, None);
    assert_eq!(fields.last_name, None);
}

#[test]
fn unknown_attributes_are_ignored() {
    let mut m = AttributeMap::new();
    m.set("uid".to_owned(), AttrValue::S("abc".to_owned()));
    m.set("firstName".to_owned(), AttrValue::S("Ada".to_owned()));
    let fields = decode(&m);
    assert_eq!(fields.first_name, Some("Ada".to_owned()));
    assert_eq!(fields.last_name, None);
}

#[test]
fn encoding_overwrites_nothing_else() {
    let user = User { first_name: Some("Ada".to_owned()), last_name: None };
    let encoded = encode(&user);
    assert_eq!(encoded.get("firstName"), Some(&AttrValue::S("Ada".to_owned())));
    assert_eq!(encoded.get("lastName"), None);
}
