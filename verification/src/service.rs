//! The operations a caller invokes, one per route: point lookup, create, and
//! partial update, each answering with the tagged envelope; and the
//! translation of a live backend's point-read answer into the domain outcome.

use vstd::prelude::*;

use crate::codec::build;
use crate::codec::create_item;
use crate::codec::create_item_map;
use crate::codec::decode;
use crate::codec::decode_field;
use crate::codec::user_map;
use crate::models::CreateUser;
use crate::models::ErrorResponse;
use crate::models::Response;
use crate::models::UpdateUser;
use crate::models::User;
use crate::models::opt_str_view;
use crate::store::Store;
use crate::store::StoreError;
use crate::store::stored_or_new;
use crate::update::apply_deltas;
use crate::update::encode_update;
use crate::AttributeMap;

verus! {

/// Relies on `uuid::Uuid::new_v4` and the hyphenated form its `Display`
/// implementation renders: a fresh random identifier, 36 characters long.
/// Nothing more is assumed of a random value.
#[verifier::external_body]
pub(crate) fn fresh_id() -> (r: String)
    ensures
        r@.len() == 36,
{
    uuid::Uuid::new_v4().to_string()
}

/// Translates what one backend point read returned into the domain outcome:
/// no item is `NotFound`, an item decodes leniently and builds the entity.
pub fn fetch_outcome(item: Option<AttributeMap>) -> (r: Result<User, StoreError>)
    requires
        item matches Some(m) ==> m.wf(),
    ensures
        match item {
            None => r == Err::<User, StoreError>(StoreError::NotFound),
            Some(m) => r matches Ok(u) && opt_str_view(u.first_name) == decode_field(
                m@,
                "firstName"@,
            ) && opt_str_view(u.last_name) == decode_field(m@, "lastName"@),
        },
{
    let m = match item {
        Some(m) => m,
        None => {
            return Err(StoreError::NotFound);
        },
    };
    let fields = decode(&m);
    match build(fields) {
        Ok(u) => Ok(u),
        Err(e) => Err(StoreError::Transport(e.message)),
    }
}

/// Point lookup of one user: fetch by identifier, decode each field
/// leniently, build the entity — or the `NotFound` outcome, distinguishable
/// from any transport error.
pub fn get_user_internal(store: &Store, uid: &str) -> (r: Result<User, StoreError>)
    requires
        store.wf(),
        store.provisioned(),
    ensures
        match r {
            Ok(u) => store@.records.contains_key(uid@) && opt_str_view(u.first_name)
                == decode_field(store@.records[uid@], "firstName"@) && opt_str_view(u.last_name)
                == decode_field(store@.records[uid@], "lastName"@),
            Err(e) => e == StoreError::NotFound && !store@.records.contains_key(uid@),
        },
{
    let item = match store.fetch(uid) {
        Ok(m) => m,
        Err(e) => {
            return Err(e);
        },
    };
    let fields = decode(item);
    match build(fields) {
        Ok(u) => Ok(u),
        Err(e) => Err(StoreError::Transport(e.message)),
    }
}

/// The lookup route: the user on success, the envelope's error payload with
/// the failure's rendering otherwise.
pub fn get_user(store: &Store, uid: &str) -> (r: Response<User, ErrorResponse>)
    requires
        store.wf(),
        store.provisioned(),
    ensures
        match r {
            Response::Success(u) => store@.records.contains_key(uid@) && opt_str_view(
                u.first_name,
            ) == decode_field(store@.records[uid@], "firstName"@) && opt_str_view(u.last_name)
                == decode_field(store@.records[uid@], "lastName"@),
            Response::Failure(e) => !store@.records.contains_key(uid@) && e.message@
                == "Not found"@,
        },
{
    match get_user_internal(store, uid) {
        Ok(u) => Response::Success(u),
        Err(e) => {
            let message = e.message();
            Response::Failure(ErrorResponse { message })
        },
    }
}

/// The create route: generates a fresh identifier, writes the full item under
/// it, and answers with the identifier.
pub fn create_user(store: &mut Store, input: CreateUser) -> (r: Response<String, ErrorResponse>)
    requires
        old(store).wf(),
        old(store).provisioned(),
    ensures
        final(store).wf(),
        final(store).provisioned(),
        final(store)@.tables == old(store)@.tables,
        r matches Response::Success(id) && id@.len() == 36 && final(store)@.records == old(
            store,
        )@.records.insert(id@, create_item_map(id@, input.first_name@, input.last_name@)),
{
    let id = fresh_id();
    let item = create_item(&id, &input);
    match store.insert(id.clone(), item) {
        Ok(()) => Response::Success(id),
        Err(e) => {
            let message = e.message();
            Response::Failure(ErrorResponse { message })
        },
    }
}

/// The update route: applies exactly the supplied fields to the stored item
/// and answers with the literal acknowledgement.
pub fn update_user(store: &mut Store, uid: &str, update: UpdateUser) -> (r: Response<
    String,
    ErrorResponse,
>)
    requires
        old(store).wf(),
        old(store).provisioned(),
    ensures
        final(store).wf(),
        final(store).provisioned(),
        final(store)@.tables == old(store)@.tables,
        final(store)@.records == old(store)@.records.insert(
            uid@,
            apply_deltas(
                stored_or_new(old(store)@.records, uid@),
                user_map(opt_str_view(update.first_name), opt_str_view(update.last_name)),
            ),
        ),
        r matches Response::Success(m) && m@ == "Updated"@,
{
    let deltas = encode_update(&update);
    match store.partial_update(uid, deltas) {
        Ok(()) => Response::Success("Updated".to_owned()),
        Err(e) => {
            let message = e.message();
            Response::Failure(ErrorResponse { message })
        },
    }
}

} // verus!
