//! The violation record attached to a quota failure.

use vstd::prelude::*;

verus! {

/// A single quota violation: which subject hit which limit.
#[derive(Clone, Debug, PartialEq, Eq)]
pub struct Violation {
    /// The subject on which the quota check failed, such as a client IP or
    /// a project id.
    pub subject: String,
    /// How the quota check failed, for example which daily limit was hit.
    pub description: String,
}

/// The spec-level shape of a quota [`Violation`].
pub struct ViolationV {
    pub subject: Seq<char>,
    pub description: Seq<char>,
}

impl View for Violation {
    type V = ViolationV;

    open spec fn view(&self) -> ViolationV {
        ViolationV { subject: self.subject@, description: self.description@ }
    }
}

} // verus!
