//! Partial-update semantics: the delta map an update payload encodes to, the
//! effect of applying deltas to a stored item, and the dynamically composed
//! update request a live backend is sent.

use vstd::prelude::*;

use crate::attr::AttrV;
use crate::attr::AttrValue;
use crate::codec::decode_field;
use crate::codec::user_map;
use crate::models::UpdateUser;
use crate::models::opt_str_view;
use crate::AttributeMap;

verus! {

/// What a partial update does to a stored item: an attribute present in the
/// delta map overwrites, every other attribute is left unmodified.
pub open spec fn apply_deltas(
    item: Map<Seq<char>, AttrV>,
    deltas: Map<Seq<char>, AttrV>,
) -> Map<Seq<char>, AttrV> {
    item.union_prefer_right(deltas)
}

/// Encodes the deltas of an update payload: exactly the fields the caller
/// supplied, under their wire names.
pub fn encode_update(u: &UpdateUser) -> (r: AttributeMap)
    ensures
        r.wf(),
        r@ == user_map(opt_str_view(u.first_name), opt_str_view(u.last_name)),
{
    let mut m = AttributeMap::new();
    if let Some(f) = &u.first_name {
        m.set("firstName".to_owned(), AttrValue::S(f.clone()));
    }
    if let Some(l) = &u.last_name {
        m.set("lastName".to_owned(), AttrValue::S(l.clone()));
    }
    proof {
        assert(m@ =~= user_map(opt_str_view(u.first_name), opt_str_view(u.last_name)));
    }
    m
}

/// An empty delta set leaves the stored item exactly as it was.
pub proof fn lemma_empty_update_is_identity(item: Map<Seq<char>, AttrV>)
    ensures
        apply_deltas(item, Map::<Seq<char>, AttrV>::empty()) == item,
{
    assert(apply_deltas(item, Map::<Seq<char>, AttrV>::empty()) =~= item);
}

/// A partial update never touches an attribute its delta set does not
/// mention: the attribute stays present or absent as it was, with its stored
/// value.
pub proof fn lemma_update_leaves_unmentioned(
    item: Map<Seq<char>, AttrV>,
    deltas: Map<Seq<char>, AttrV>,
    key: Seq<char>,
)
    requires
        !deltas.contains_key(key),
    ensures
        apply_deltas(item, deltas).contains_key(key) == item.contains_key(key),
        item.contains_key(key) ==> apply_deltas(item, deltas)[key] == item[key],
{
}

/// Updating only the first name sets exactly that attribute and leaves the
/// stored last name — present or absent — exactly as it was, so a subsequent
/// decode of the item returns the previous last name unchanged.
pub proof fn lemma_first_name_update_keeps_last_name(item: Map<Seq<char>, AttrV>, f: Seq<char>)
    ensures
        apply_deltas(item, user_map(Some(f), None))["firstName"@] == AttrV::S(f),
        decode_field(apply_deltas(item, user_map(Some(f), None)), "firstName"@) == Some(f),
        decode_field(apply_deltas(item, user_map(Some(f), None)), "lastName"@) == decode_field(
            item,
            "lastName"@,
        ),
{
    reveal_strlit("firstName");
    reveal_strlit("lastName");
    assert("firstName"@.len() == 9);
    assert("lastName"@.len() == 8);
    lemma_update_leaves_unmentioned(item, user_map(Some(f), None), "lastName"@);
}

/// A freshly created item, then an update of only the last name, reads back
/// as the first name it was created with and the last name it was updated
/// to — the identifier's key attribute disturbs neither.
pub proof fn lemma_create_then_update_reads_back(
    id: Seq<char>,
    first: Seq<char>,
    last: Seq<char>,
    new_last: Seq<char>,
)
    ensures
        decode_field(
            apply_deltas(crate::codec::create_item_map(id, first, last), user_map(None, Some(new_last))),
            "firstName"@,
        ) == Some(first),
        decode_field(
            apply_deltas(crate::codec::create_item_map(id, first, last), user_map(None, Some(new_last))),
            "lastName"@,
        ) == Some(new_last),
{
    reveal_strlit("firstName");
    reveal_strlit("lastName");
    reveal_strlit("uid");
    assert("firstName"@.len() == 9);
    assert("lastName"@.len() == 8);
    assert("uid"@.len() == 3);
}

/// The dynamically composed update request for a live backend: one clause per
/// present field, each value bound by a name, so that no field content ever
/// stands in the expression text.
#[derive(Debug, Clone, PartialEq, Eq)]
pub struct UpdatePlan {
    pub expression: String,
    pub values: AttributeMap,
}

/// Composes the update request, or reports the update empty: an empty delta
/// set sends nothing and succeeds as a no-op.
pub fn update_plan(u: &UpdateUser) -> (r: Option<UpdatePlan>)
    ensures
        match r {
            None => u.first_name is None && u.last_name is None,
            Some(p) => p.values.wf() && match (u.first_name, u.last_name) {
                (Some(f), None) => p.expression@ == "SET firstName = :firstName"@ && p.values@
                    == Map::<Seq<char>, AttrV>::empty().insert(":firstName"@, AttrV::S(f@)),
                (None, Some(l)) => p.expression@ == "SET lastName = :lastName"@ && p.values@
                    == Map::<Seq<char>, AttrV>::empty().insert(":lastName"@, AttrV::S(l@)),
                (Some(f), Some(l)) => p.expression@
                    == "SET firstName = :firstName, lastName = :lastName"@ && p.values@ == Map::<
                    Seq<char>,
                    AttrV,
                >::empty().insert(":firstName"@, AttrV::S(f@)).insert(":lastName"@, AttrV::S(l@)),
                (None, None) => false,
            },
        },
{
    match (&u.first_name, &u.last_name) {
        (None, None) => None,
        (Some(f), None) => {
            let mut values = AttributeMap::new();
            values.set(":firstName".to_owned(), AttrValue::S(f.clone()));
            Some(UpdatePlan { expression: "SET firstName = :firstName".to_owned(), values })
        },
        (None, Some(l)) => {
            let mut values = AttributeMap::new();
            values.set(":lastName".to_owned(), AttrValue::S(l.clone()));
            Some(UpdatePlan { expression: "SET lastName = :lastName".to_owned(), values })
        },
        (Some(f), Some(l)) => {
            let mut values = AttributeMap::new();
            values.set(":firstName".to_owned(), AttrValue::S(f.clone()));
            values.set(":lastName".to_owned(), AttrValue::S(l.clone()));
            Some(
                UpdatePlan {
                    expression: "SET firstName = :firstName, lastName = :lastName".to_owned(),
                    values,
                },
            )
        },
    }
}

} // verus!
