//! The role a zone plays for the authority that serves it.

use vstd::prelude::*;

verus! {

/// What kind of zone an authority serves; fixed when the authority is built.
#[derive(Clone, Copy, Debug, PartialEq, Eq, Structural)]
pub enum ZoneType {
    /// An authoritative zone served from a local primary store.
    Primary,
    /// An authoritative zone replicated from a primary.
    Secondary,
    /// A hint zone pointing at root servers.
    Hint,
    /// A zone whose queries are forwarded to an upstream resolver.
    Forward,
}

impl ZoneType {
    /// Dynamic updates may only be applied to a primary zone.
    pub fn is_update_allowed(self) -> (r: bool)
        ensures
            r == (self is Primary),
    {
        match self {
            ZoneType::Primary => true,
            _ => false,
        }
    }

    /// Only authoritative zones can be enumerated for a zone transfer.
    pub fn is_authoritative(self) -> (r: bool)
        ensures
            r == (self is Primary || self is Secondary),
    {
        match self {
            ZoneType::Primary => true,
            ZoneType::Secondary => true,
            _ => false,
        }
    }
}

} // verus!
