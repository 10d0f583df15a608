//! The uniform lookup-result abstraction: what records a lookup produced,
//! and what kind of absence it found when it produced none.

use vstd::prelude::*;
use crate::forwarder::ForwardLookup;
use crate::rr::Record;

verus! {

/// The capability-typed view over the records a lookup produced, carrying
/// existence metadata alongside the record sequence.
pub trait LookupObject {
    /// The records this result yields, in order.
    spec fn records(&self) -> Seq<Record>;

    /// Whether the backend classified the absence as "other records exist at
    /// this name, none of the queried type".
    spec fn name_exists_flag(&self) -> bool;

    /// Whether the backend classified the absence as "the name itself does
    /// not exist".
    spec fn nx_domain_flag(&self) -> bool;

    /// Whether policy refused to answer.
    spec fn refused_flag(&self) -> bool;

    /// Absence classified as "no such name" or "refused" comes with no
    /// records.
    proof fn absence_has_no_records(&self)
        ensures
            self.nx_domain_flag() || self.refused_flag() ==> self.records().len() == 0,
    ;

    /// True exactly when the record sequence yields zero records.
    fn is_empty(&self) -> (r: bool)
        ensures
            r == (self.records().len() == 0),
    ;

    /// True iff other records exist at the queried name, just not of the
    /// queried type.
    fn is_name_exists(&self) -> (r: bool)
        ensures
            r == self.name_exists_flag(),
    ;

    /// True iff the queried name does not exist in the zone.
    fn is_nx_domain(&self) -> (r: bool)
        ensures
            r == self.nx_domain_flag(),
    ;

    /// True iff policy refused to answer.
    fn is_refused(&self) -> (r: bool)
        ensures
            r == self.refused_flag(),
    ;

    /// The records themselves, in the order the result yields them.
    fn iter(&self) -> (r: &Vec<Record>)
        ensures
            r@ == self.records(),
    ;
}

/// The lookup result every backend returns: records served from a local
/// store, or the answer an upstream resolver handed back.
#[derive(Debug)]
pub enum AuthLookup {
    /// Records served from a local store; zero of them when the lookup
    /// found none.
    Records {
        /// The records found.
        answers: Vec<Record>,
    },
    /// The answer an upstream resolver handed back.
    Forwarded(ForwardLookup),
}

impl AuthLookup {
    /// A lookup that found nothing.
    pub fn empty() -> (r: AuthLookup)
        ensures
            r.records() == Seq::<Record>::empty(),
    {
        AuthLookup::Records { answers: Vec::new() }
    }
}

impl LookupObject for AuthLookup {
    open spec fn records(&self) -> Seq<Record> {
        match self {
            AuthLookup::Records { answers } => answers@,
            AuthLookup::Forwarded(lookup) => lookup.records(),
        }
    }

    open spec fn name_exists_flag(&self) -> bool {
        false
    }

    open spec fn nx_domain_flag(&self) -> bool {
        false
    }

    open spec fn refused_flag(&self) -> bool {
        false
    }

    proof fn absence_has_no_records(&self) {
    }

    fn is_empty(&self) -> (r: bool) {
        match self {
            AuthLookup::Records { answers } => answers.len() == 0,
            AuthLookup::Forwarded(lookup) => lookup.is_empty(),
        }
    }

    fn is_name_exists(&self) -> (r: bool) {
        false
    }

    fn is_nx_domain(&self) -> (r: bool) {
        false
    }

    fn is_refused(&self) -> (r: bool) {
        false
    }

    fn iter(&self) -> (r: &Vec<Record>) {
        match self {
            AuthLookup::Records { answers } => answers,
            AuthLookup::Forwarded(lookup) => lookup.iter(),
        }
    }
}

} // verus!
