//! The link record attached to a help detail.

use vstd::prelude::*;

verus! {

/// A URL with a description of what it offers.
#[derive(Clone, Debug, PartialEq, Eq)]
pub struct Link {
    /// What the link offers.
    pub description: String,
    /// The URL of the link.
    pub url: String,
}

/// The spec-level shape of a [`Link`].
pub struct LinkV {
    pub description: Seq<char>,
    pub url: Seq<char>,
}

impl View for Link {
    type V = LinkV;

    open spec fn view(&self) -> LinkV {
        LinkV { description: self.description@, url: self.url@ }
    }
}

} // verus!
