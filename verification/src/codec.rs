//! The attribute codec: between the typed entity fields and the store's
//! string-keyed, tagged attribute representation. Encoding is exact; decoding
//! is lenient — an attribute that is absent, or present with a non-string
//! underlying type, decodes to an absent field, never to an error.

use vstd::prelude::*;

use crate::attr::AttrV;
use crate::attr::AttrValue;
use crate::models::CreateUser;
use crate::models::User;
use crate::models::opt_str_view;
use crate::AttributeMap;

verus! {

/// The independently decoded optional fields of a user entity, as the codec
/// hands them to the builder.
#[derive(Debug, Clone, PartialEq, Eq)]
pub struct UserFields {
    pub first_name: Option<String>,
    pub last_name: Option<String>,
}

/// An entity invariant violation found while assembling a user from decoded
/// fields. With both fields optional it is presently unreachable; the builder
/// stays as the seam where a future mandatory field would fail.
#[derive(Debug, Clone, PartialEq, Eq)]
pub struct BuildError {
    pub message: String,
}

/// What one field decodes to: the payload of a string-typed attribute under
/// `key`, and absent for a missing key or a non-string attribute.
pub open spec fn decode_field(m: Map<Seq<char>, AttrV>, key: Seq<char>) -> Option<Seq<char>> {
    if m.contains_key(key) {
        match m[key] {
            AttrV::S(s) => Some(s),
            _ => None,
        }
    } else {
        None
    }
}

/// The attribute map a pair of optional name fields encodes to: one
/// string-typed attribute per present field, nothing else.
pub open spec fn user_map(first: Option<Seq<char>>, last: Option<Seq<char>>) -> Map<
    Seq<char>,
    AttrV,
> {
    let m0 = Map::<Seq<char>, AttrV>::empty();
    let m1 = match first {
        Some(f) => m0.insert("firstName"@, AttrV::S(f)),
        None => m0,
    };
    match last {
        Some(l) => m1.insert("lastName"@, AttrV::S(l)),
        None => m1,
    }
}

/// The full item a create operation writes: the key attribute plus both
/// encoded name fields.
pub open spec fn create_item_map(id: Seq<char>, first: Seq<char>, last: Seq<char>) -> Map<
    Seq<char>,
    AttrV,
> {
    user_map(Some(first), Some(last)).insert("uid"@, AttrV::S(id))
}

/// Encodes an entity's fields: exactly the present fields appear, as
/// string-typed attributes under their wire names.
pub fn encode(u: &User) -> (r: AttributeMap)
    ensures
        r.wf(),
        r@ == user_map(opt_str_view(u.first_name), opt_str_view(u.last_name)),
{
    let mut m = AttributeMap::new();
    if let Some(f) = &u.first_name {
        m.set("firstName".to_owned(), AttrValue::S(f.clone()));
    }
    if let Some(l) = &u.last_name {
        m.set("lastName".to_owned(), AttrValue::S(l.clone()));
    }
    proof {
        assert(m@ =~= user_map(opt_str_view(u.first_name), opt_str_view(u.last_name)));
    }
    m
}

/// Builds the item a create operation stores for a fresh identifier.
pub fn create_item(id: &String, input: &CreateUser) -> (r: AttributeMap)
    ensures
        r.wf(),
        r@ == create_item_map(id@, input.first_name@, input.last_name@),
{
    let mut m = AttributeMap::new();
    m.set("firstName".to_owned(), AttrValue::S(input.first_name.clone()));
    m.set("lastName".to_owned(), AttrValue::S(input.last_name.clone()));
    m.set("uid".to_owned(), AttrValue::S(id.clone()));
    proof {
        assert(m@ =~= create_item_map(id@, input.first_name@, input.last_name@));
    }
    m
}

/// Decodes both fields leniently from an attribute map.
pub fn decode(m: &AttributeMap) -> (r: UserFields)
    requires
        m.wf(),
    ensures
        opt_str_view(r.first_name) == decode_field(m@, "firstName"@),
        opt_str_view(r.last_name) == decode_field(m@, "lastName"@),
{
    let first_name = match m.get("firstName") {
        Some(AttrValue::S(s)) => Some(s.clone()),
        _ => None,
    };
    let last_name = match m.get("lastName") {
        Some(AttrValue::S(s)) => Some(s.clone()),
        _ => None,
    };
    UserFields { first_name, last_name }
}

/// Assembles a user from independently decoded fields. With both fields
/// optional this always succeeds, carrying each field over unchanged.
pub fn build(fields: UserFields) -> (r: Result<User, BuildError>)
    ensures
        r == Ok::<User, BuildError>(
            User { first_name: fields.first_name, last_name: fields.last_name },
        ),
{
    Ok(User { first_name: fields.first_name, last_name: fields.last_name })
}

/// Round-trip fidelity: decoding an encoded pair of optional name fields
/// reproduces both exactly — absent stays absent, present stays present with
/// equal content.
pub proof fn lemma_decode_encode_round_trip(first: Option<Seq<char>>, last: Option<Seq<char>>)
    ensures
        decode_field(user_map(first, last), "firstName"@) == first,
        decode_field(user_map(first, last), "lastName"@) == last,
{
    reveal_strlit("firstName");
    reveal_strlit("lastName");
    assert("firstName"@.len() == 9);
    assert("lastName"@.len() == 8);
}

/// Lenient decoding: an attribute present under `key` with a non-string
/// underlying type decodes to an absent field, never to an error.
pub proof fn lemma_non_string_decodes_absent(m: Map<Seq<char>, AttrV>, key: Seq<char>)
    requires
        m.contains_key(key),
        !(m[key] is S),
    ensures
        decode_field(m, key) is None,
{
}

/// The item a create operation writes decodes to exactly the two names it
/// was given; the key attribute does not disturb either field.
pub proof fn lemma_decode_create_item(id: Seq<char>, first: Seq<char>, last: Seq<char>)
    ensures
        decode_field(create_item_map(id, first, last), "firstName"@) == Some(first),
        decode_field(create_item_map(id, first, last), "lastName"@) == Some(last),
{
    reveal_strlit("firstName");
    reveal_strlit("lastName");
    reveal_strlit("uid");
    assert("firstName"@.len() == 9);
    assert("lastName"@.len() == 8);
    assert("uid"@.len() == 3);
}

} // verus!
