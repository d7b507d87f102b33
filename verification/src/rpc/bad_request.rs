//! The field violation record attached to a bad request.

use vstd::prelude::*;

verus! {

/// A single bad field in a client request.
#[derive(Clone, Debug, PartialEq, Eq)]
pub struct FieldViolation {
    /// A dot-separated path to the offending field in the request body.
    pub field: String,
    /// Why the request element is bad.
    pub description: String,
}

/// The spec-level shape of a [`FieldViolation`].
pub struct FieldViolationV {
    pub field: Seq<char>,
    pub description: Seq<char>,
}

impl View for FieldViolation {
    type V = FieldViolationV;

    open spec fn view(&self) -> FieldViolationV {
        FieldViolationV { field: self.field@, description: self.description@ }
    }
}

} // verus!
