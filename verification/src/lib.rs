//! A minimal record-management library: a typed user entity, its encoding to
//! and from a string-keyed attribute map, partial-update semantics over that
//! map, an idempotent table-provisioning step, and a tagged result envelope.
//! The store itself is modelled in memory; the functions that talk to a real
//! backend are pure translations that a thin host layer drives.

use vstd::prelude::*;

pub mod alist;
pub mod attr;
pub mod codec;
pub mod models;
pub mod provision;
pub mod service;
pub mod store;
pub mod update;

pub use alist::AList;
pub use attr::AttrV;
pub use attr::AttrValue;
pub use codec::BuildError;
pub use codec::UserFields;
pub use codec::build;
pub use codec::create_item;
pub use codec::decode;
pub use codec::encode;
pub use models::CreateUser;
pub use models::ErrorResponse;
pub use models::Response;
pub use models::UpdateUser;
pub use models::User;
pub use provision::BillingKind;
pub use provision::ProvisionError;
pub use provision::ProvisionEvent;
pub use provision::ScalarKind;
pub use provision::TableSpec;
pub use provision::provision_outcome;
pub use provision::required_table_spec;
pub use service::create_user;
pub use service::fetch_outcome;
pub use service::get_user;
pub use service::get_user_internal;
pub use service::update_user;
pub use store::Store;
pub use store::StoreError;
pub use update::UpdatePlan;
pub use update::encode_update;
pub use update::update_plan;

verus! {

/// An attribute map: the wire representation of an entity as named, tagged
/// scalar values.
pub type AttributeMap = alist::AList<attr::AttrValue>;

/// String equality at the level of views, proved through vstd's
/// specifications of `str::to_owned` and `String::eq`.
pub fn str_eq(a: &str, b: &str) -> (r: bool)
    ensures
        r == (a@ == b@),
{
    let x: String = a.to_owned();
    let y: String = b.to_owned();
    x == y
}

} // verus!
