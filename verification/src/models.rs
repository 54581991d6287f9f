//! The entity and payload types, and the tagged result envelope every
//! operation answers with.

use vstd::prelude::*;

verus! {

/// Input payload for the create operation: both names are mandatory and only
/// seed the new record.
#[derive(Debug, Clone, PartialEq, Eq)]
pub struct CreateUser {
    pub first_name: String,
    pub last_name: String,
}

/// Input payload for the partial update: a field left absent is left
/// untouched in the stored record.
#[derive(Debug, Clone, PartialEq, Eq)]
pub struct UpdateUser {
    pub first_name: Option<String>,
    pub last_name: Option<String>,
}

/// The stored entity. Both name fields are optional: a record may exist with
/// either absent. Its identifier is generated at creation, lives as the key
/// of the record, and never changes.
#[derive(Debug, Clone, PartialEq, Eq)]
pub struct User {
    pub first_name: Option<String>,
    pub last_name: Option<String>,
}

/// The error payload of the envelope: a human-readable message.
#[derive(Debug, Clone, PartialEq, Eq)]
pub struct ErrorResponse {
    pub message: String,
}

/// The tagged outcome envelope: exactly one of a success payload or an error
/// payload, for every operation alike.
#[derive(Debug, Clone, PartialEq, Eq)]
pub enum Response<R, E> {
    Success(R),
    Failure(E),
}

/// The mathematical value of an optional string field.
pub open spec fn opt_str_view(o: Option<String>) -> Option<Seq<char>> {
    match o {
        Some(s) => Some(s@),
        None => None,
    }
}

} // verus!
