//! The tagged scalar values that the attribute store holds. Only string
//! values are produced by this library today, but the variant type is closed
//! over the scalar kinds the backend distinguishes, so a new field type is a
//! new variant rather than a boundary redesign.

use vstd::prelude::*;

verus! {

/// An executable tagged scalar: a string, a number carried in decimal string
/// form (as the backend transmits it), or a boolean.
#[derive(Debug, Clone, PartialEq, Eq)]
pub enum AttrValue {
    S(String),
    N(String),
    Bool(bool),
}

/// The mathematical value of an [`AttrValue`]: the same variants over
/// sequences of characters.
pub enum AttrV {
    S(Seq<char>),
    N(Seq<char>),
    Bool(bool),
}

impl crate::alist::ValWf for AttrValue {
    open spec fn val_wf(&self) -> bool {
        true
    }
}

impl View for AttrValue {
    type V = AttrV;

    open spec fn view(&self) -> AttrV {
        match self {
            AttrValue::S(s) => AttrV::S(s@),
            AttrValue::N(n) => AttrV::N(n@),
            AttrValue::Bool(b) => AttrV::Bool(*b),
        }
    }
}

} // verus!
