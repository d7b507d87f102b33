//! The violation record attached to a precondition failure.

use vstd::prelude::*;

verus! {

/// A single failed precondition. The `kind` field carries the wire field
/// named `type`: a service-specific label such as `TOS`.
#[derive(Clone, Debug, PartialEq, Eq)]
pub struct Violation {
    /// The kind of precondition that failed (the wire field `type`).
    pub kind: String,
    /// The subject, relative to the kind, that failed.
    pub subject: String,
    /// How the precondition failed and how to fix it.
    pub description: String,
}

/// The spec-level shape of a precondition [`Violation`].
pub struct ViolationV {
    pub kind: Seq<char>,
    pub subject: Seq<char>,
    pub description: Seq<char>,
}

impl View for Violation {
    type V = ViolationV;

    open spec fn view(&self) -> ViolationV {
        ViolationV {
            kind: self.kind@,
            subject: self.subject@,
            description: self.description@,
        }
    }
}

} // verus!
