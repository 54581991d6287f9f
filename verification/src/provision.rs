//! The schema provisioner: the one table this service requires, and the
//! idempotent ensure-exists step. Creating a table that already exists is an
//! error at a live backend; this library treats that answer as success, so
//! the step is safe on every process start.

use vstd::prelude::*;

verus! {

/// The scalar type of a key attribute, as the backend distinguishes them.
#[derive(Debug, Clone, Copy, PartialEq, Eq, Structural)]
pub enum ScalarKind {
    S,
    N,
    B,
}

/// The capacity mode a table is created with.
#[derive(Debug, Clone, Copy, PartialEq, Eq, Structural)]
pub enum BillingKind {
    PayPerRequest,
    Provisioned,
}

/// A table description: its name, its single hash-key attribute, and its
/// capacity mode.
#[derive(Debug, Clone, PartialEq, Eq)]
pub struct TableSpec {
    pub name: String,
    pub hash_key: String,
    pub hash_key_kind: ScalarKind,
    pub billing: BillingKind,
}

/// The mathematical value of a [`TableSpec`].
pub struct TableSpecV {
    pub name: Seq<char>,
    pub hash_key: Seq<char>,
    pub hash_key_kind: ScalarKind,
    pub billing: BillingKind,
}

impl View for TableSpec {
    type V = TableSpecV;

    open spec fn view(&self) -> TableSpecV {
        TableSpecV {
            name: self.name@,
            hash_key: self.hash_key@,
            hash_key_kind: self.hash_key_kind,
            billing: self.billing,
        }
    }
}

impl crate::alist::ValWf for TableSpec {
    open spec fn val_wf(&self) -> bool {
        true
    }
}

/// The one table the record operations target: hash-keyed by the identifier
/// attribute, a string, with on-demand capacity.
pub open spec fn required_table() -> TableSpecV {
    TableSpecV {
        name: "users"@,
        hash_key: "uid"@,
        hash_key_kind: ScalarKind::S,
        billing: BillingKind::PayPerRequest,
    }
}

/// Builds the description of the required table.
pub fn required_table_spec() -> (r: TableSpec)
    ensures
        r@ == required_table(),
{
    TableSpec {
        name: "users".to_owned(),
        hash_key: "uid".to_owned(),
        hash_key_kind: ScalarKind::S,
        billing: BillingKind::PayPerRequest,
    }
}

/// Table creation failed for a reason other than "already exists". Fatal at
/// startup: no request is served without a confirmed table.
#[derive(Debug, Clone, PartialEq, Eq)]
pub struct ProvisionError {
    pub message: String,
}

/// What one create-table attempt at a live backend came back with. A host
/// layer maps the backend's answer onto these three cases.
#[derive(Debug, Clone, PartialEq, Eq)]
pub enum ProvisionEvent {
    Created,
    AlreadyExists,
    Failed(String),
}

/// Decides the provisioning outcome: a table freshly created or already
/// existing is success; anything else is fatal, with the backend's message.
pub fn provision_outcome(e: ProvisionEvent) -> (r: Result<(), ProvisionError>)
    ensures
        match e {
            ProvisionEvent::Created => r == Ok::<(), ProvisionError>(()),
            ProvisionEvent::AlreadyExists => r == Ok::<(), ProvisionError>(()),
            ProvisionEvent::Failed(m) => r matches Err(err) && err.message@ == m@,
        },
{
    match e {
        ProvisionEvent::Created => Ok(()),
        ProvisionEvent::AlreadyExists => Ok(()),
        ProvisionEvent::Failed(m) => Err(ProvisionError { message: m }),
    }
}

/// What one provisioning step does to the table catalog: nothing when the
/// required table exists, otherwise it adds exactly that table.
pub open spec fn provision_step(tables: Map<Seq<char>, TableSpecV>) -> Map<Seq<char>, TableSpecV> {
    if tables.contains_key("users"@) {
        tables
    } else {
        tables.insert("users"@, required_table())
    }
}

/// Provisioning is idempotent: a second step changes nothing, every step
/// succeeds, and afterwards the catalog holds the required table — exactly
/// one table more than before at most, with the specified key schema when the
/// name was free.
pub proof fn lemma_provision_idempotent(tables: Map<Seq<char>, TableSpecV>)
    ensures
        provision_step(provision_step(tables)) == provision_step(tables),
        provision_step(tables).contains_key("users"@),
        provision_step(tables).dom() =~= tables.dom().insert("users"@),
        !tables.contains_key("users"@) ==> provision_step(tables)["users"@] == required_table(),
        tables.contains_key("users"@) ==> provision_step(tables) == tables,
{
    if tables.contains_key("users"@) {
        assert(tables.dom() =~= tables.dom().insert("users"@));
    }
}

} // verus!
