//! The record store: a table catalog the provisioner maintains and the user
//! records the three operations read and write, modelled in memory with the
//! exact semantics the operations promise. A host layer that talks to a live
//! backend drives the same codec, plan and outcome functions instead.

use vstd::prelude::*;

use crate::alist::AList;
use crate::attr::AttrV;
use crate::attr::AttrValue;
use crate::provision::ProvisionError;
use crate::provision::TableSpec;
use crate::provision::TableSpecV;
use crate::provision::provision_step;
use crate::provision::required_table_spec;
use crate::update::apply_deltas;
use crate::AttributeMap;

verus! {

/// A failure of one record operation, with "no item for this identifier"
/// distinguishable from a backend connectivity or server-side fault.
#[derive(Debug, Clone, PartialEq, Eq)]
pub enum StoreError {
    NotFound,
    Transport(String),
}

impl StoreError {
    /// A lossy, human-readable rendering of the failure.
    pub fn message(&self) -> (r: String)
        ensures
            match self {
                StoreError::NotFound => r@ == "Not found"@,
                StoreError::Transport(m) => r@ == m@,
            },
    {
        match self {
            StoreError::NotFound => "Not found".to_owned(),
            StoreError::Transport(m) => m.clone(),
        }
    }
}

/// The mathematical value of a [`Store`]: the table catalog by name and the
/// stored items by identifier.
pub struct StoreV {
    pub tables: Map<Seq<char>, TableSpecV>,
    pub records: Map<Seq<char>, Map<Seq<char>, AttrV>>,
}

/// The store: tables keyed by name, user records keyed by identifier.
#[derive(Debug, Clone, PartialEq, Eq)]
pub struct Store {
    tables: AList<TableSpec>,
    records: AList<AttributeMap>,
}

impl View for Store {
    type V = StoreV;

    closed spec fn view(&self) -> StoreV {
        StoreV { tables: self.tables@, records: self.records@ }
    }
}

/// The item a partial update starts from: the stored item, or — the backend
/// creates the item on update — a fresh item holding only the key attribute.
pub open spec fn stored_or_new(
    records: Map<Seq<char>, Map<Seq<char>, AttrV>>,
    id: Seq<char>,
) -> Map<Seq<char>, AttrV> {
    if records.contains_key(id) {
        records[id]
    } else {
        Map::<Seq<char>, AttrV>::empty().insert("uid"@, AttrV::S(id))
    }
}

/// An empty delta set leaves the store exactly as it was: writing back the
/// unchanged stored item under its own identifier is no change at all.
pub proof fn lemma_empty_update_leaves_store_identical(
    records: Map<Seq<char>, Map<Seq<char>, AttrV>>,
    id: Seq<char>,
)
    requires
        records.contains_key(id),
    ensures
        records.insert(
            id,
            apply_deltas(stored_or_new(records, id), Map::<Seq<char>, AttrV>::empty()),
        ) == records,
{
    crate::update::lemma_empty_update_is_identity(stored_or_new(records, id));
    assert(records.insert(id, records[id]) =~= records);
}

impl Store {
    /// Both backing mappings are well formed.
    pub closed spec fn wf(&self) -> bool {
        self.tables.wf() && self.records.wf()
    }

    /// The required table is in the catalog: the ordering dependency every
    /// record operation stands behind.
    pub open spec fn provisioned(&self) -> bool {
        self@.tables.contains_key("users"@)
    }

    /// An empty store: no tables, no records.
    pub fn new() -> (r: Store)
        ensures
            r.wf(),
            r@.tables == Map::<Seq<char>, TableSpecV>::empty(),
            r@.records == Map::<Seq<char>, Map<Seq<char>, AttrV>>::empty(),
    {
        Store { tables: AList::new(), records: AList::new() }
    }

    /// Idempotently ensures the required table exists: created with the
    /// specified key schema and capacity mode when absent, left exactly as it
    /// is when present — "already exists" is success, not failure. Safe to
    /// run on every process start.
    pub fn ensure_schema(&mut self) -> (r: Result<(), ProvisionError>)
        requires
            old(self).wf(),
        ensures
            final(self).wf(),
            r == Ok::<(), ProvisionError>(()),
            final(self)@.tables == provision_step(old(self)@.tables),
            final(self)@.records == old(self)@.records,
            final(self).provisioned(),
    {
        if self.tables.get("users").is_some() {
            return Ok(());
        }
        let t = required_table_spec();
        self.tables.set("users".to_owned(), t);
        proof {
            assert(self@.tables =~= provision_step(old(self)@.tables));
        }
        Ok(())
    }

    /// How many tables the catalog holds.
    pub fn table_count(&self) -> (r: usize)
        requires
            self.wf(),
        ensures
            r == self@.tables.dom().len(),
    {
        self.tables.len()
    }

    /// The catalog's description of the named table, if any.
    pub fn table(&self, name: &str) -> (r: Option<&TableSpec>)
        requires
            self.wf(),
        ensures
            match r {
                Some(t) => self@.tables.contains_key(name@) && t@ == self@.tables[name@],
                None => !self@.tables.contains_key(name@),
            },
    {
        self.tables.get(name)
    }

    /// Point lookup by identifier: the stored item, or `NotFound` when no
    /// item matches — never anything else from this store.
    pub fn fetch(&self, id: &str) -> (r: Result<&AttributeMap, StoreError>)
        requires
            self.wf(),
            self.provisioned(),
        ensures
            match r {
                Ok(m) => self@.records.contains_key(id@) && m@ == self@.records[id@] && m.wf(),
                Err(e) => e == StoreError::NotFound && !self@.records.contains_key(id@),
            },
    {
        match self.records.get(id) {
            Some(m) => Ok(m),
            None => Err(StoreError::NotFound),
        }
    }

    /// Unconditional write of a full item under `id`: a previous item under
    /// the same identifier is overwritten silently.
    pub fn insert(&mut self, id: String, item: AttributeMap) -> (r: Result<(), StoreError>)
        requires
            old(self).wf(),
            old(self).provisioned(),
            item.wf(),
        ensures
            final(self).wf(),
            final(self).provisioned(),
            r == Ok::<(), StoreError>(()),
            final(self)@.records == old(self)@.records.insert(id@, item@),
            final(self)@.tables == old(self)@.tables,
    {
        self.records.set(id, item);
        Ok(())
    }

    /// Applies exactly the attributes present in `deltas` to the item under
    /// `id`, leaving every other attribute unmodified; an item absent from
    /// the store is created from its key attribute first. An empty delta set
    /// is a no-op that still reports success.
    pub fn partial_update(&mut self, id: &str, deltas: AttributeMap) -> (r: Result<
        (),
        StoreError,
    >)
        requires
            old(self).wf(),
            old(self).provisioned(),
            deltas.wf(),
        ensures
            final(self).wf(),
            final(self).provisioned(),
            r == Ok::<(), StoreError>(()),
            final(self)@.records == old(self)@.records.insert(
                id@,
                apply_deltas(stored_or_new(old(self)@.records, id@), deltas@),
            ),
            final(self)@.tables == old(self)@.tables,
    {
        let ghost base = stored_or_new(old(self)@.records, id@);
        let mut item = match self.records.take(id) {
            Some(m) => m,
            None => {
                let mut m = AttributeMap::new();
                m.set("uid".to_owned(), AttrValue::S(id.to_owned()));
                proof {
                    assert(m@ =~= base);
                }
                m
            },
        };
        let ghost all = deltas@;
        let mut rest = deltas;
        loop
            invariant
                item.wf(),
                rest.wf(),
                apply_deltas(item@, rest@) == apply_deltas(base, all),
            ensures
                item.wf(),
                rest@ == Map::<Seq<char>, AttrV>::empty(),
                apply_deltas(item@, rest@) == apply_deltas(base, all),
            decreases rest.count(),
        {
            let ghost pre_item = item@;
            let ghost pre_rest = rest@;
            match rest.pop_entry() {
                Some(kv) => {
                    proof {
                        assert(pre_rest =~= rest@.insert(kv.0@, kv.1@));
                    }
                    item.set(kv.0, kv.1);
                    proof {
                        assert(apply_deltas(item@, rest@) =~= apply_deltas(pre_item, pre_rest));
                    }
                },
                None => {
                    break ;
                },
            }
        }
        proof {
            assert(item@ =~= apply_deltas(item@, rest@));
        }
        self.records.set(id.to_owned(), item);
        proof {
            assert(self@.records =~= old(self)@.records.insert(
                id@,
                apply_deltas(stored_or_new(old(self)@.records, id@), all),
            ));
        }
        Ok(())
    }
}

} // verus!
