//! The parsed incoming request, as far as the authority layer reads it: the
//! question, and for dynamic updates the records to apply.

use vstd::prelude::*;
use crate::name::LowerName;
use crate::rr::{Record, RecordType};

verus! {

/// The question of a query, its name already normalized for
/// case-insensitive matching.
#[derive(Debug)]
pub struct LowerQuery {
    name: LowerName,
    query_type: RecordType,
}

impl LowerQuery {
    /// The queried name.
    pub closed spec fn spec_name(&self) -> LowerName {
        self.name
    }

    /// The queried record type.
    pub closed spec fn spec_query_type(&self) -> RecordType {
        self.query_type
    }

    /// Builds a question.
    pub fn new(name: LowerName, query_type: RecordType) -> (r: LowerQuery)
        ensures
            r.spec_name() == name,
            r.spec_query_type() == query_type,
    {
        LowerQuery { name, query_type }
    }

    /// The queried name.
    pub fn name(&self) -> (r: &LowerName)
        ensures
            *r == self.spec_name(),
    {
        &self.name
    }

    /// The queried record type.
    pub fn query_type(&self) -> (r: RecordType)
        ensures
            r == self.spec_query_type(),
    {
        self.query_type
    }
}

/// A parsed incoming message, read-only for the authority but for the single
/// dynamic-update entry point.
#[derive(Debug)]
pub struct MessageRequest {
    query: LowerQuery,
    updates: Vec<Record>,
}

impl MessageRequest {
    /// The question the message asks.
    pub closed spec fn spec_query(&self) -> LowerQuery {
        self.query
    }

    /// The records a dynamic update asks to apply.
    pub closed spec fn spec_updates(&self) -> Seq<Record> {
        self.updates@
    }

    /// Builds a message from its question and update records.
    pub fn new(query: LowerQuery, updates: Vec<Record>) -> (r: MessageRequest)
        ensures
            r.spec_query() == query,
            r.spec_updates() == updates@,
    {
        MessageRequest { query, updates }
    }

    /// The question the message asks.
    pub fn query(&self) -> (r: &LowerQuery)
        ensures
            *r == self.spec_query(),
    {
        &self.query
    }

    /// The records a dynamic update asks to apply.
    pub fn updates(&self) -> (r: &Vec<Record>)
        ensures
            r@ == self.spec_updates(),
    {
        &self.updates
    }
}

} // verus!
