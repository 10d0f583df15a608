//! The `Authority` capability contract: the uniform interface through which
//! every zone backend answers "given a name and a record type, produce
//! records", and the sum-typed shape those answers take.

use vstd::prelude::*;
use crate::dnssec::{DnsSecError, Signer, SupportedAlgorithms};
use crate::error::LookupError;
use crate::forwarder::ForwardLookupFuture;
use crate::lookup::AuthLookup;
use crate::name::LowerName;
use crate::request::{LowerQuery, MessageRequest};
use crate::response_code::ResponseCode;
use crate::rr::RecordType;
use crate::zone_type::ZoneType;

verus! {

/// The result of a dynamic-update operation: whether the zone changed, or
/// the protocol outcome refusing the update.
pub type UpdateResult<T> = Result<T, ResponseCode>;

/// The one shape every backend's lookup returns: an answer that is already
/// available, or a pending upstream resolution the surrounding runtime must
/// drive to completion. A backend that answers from local data returns
/// `Ready`; a forwarding backend returns `Forward`, and must never block the
/// serving thread waiting for the upstream itself.
#[derive(Debug)]
pub enum LookupFuture {
    /// The answer, available without upstream help.
    Ready(AuthLookup),
    /// A pending upstream resolution, to be driven by the runtime.
    Forward(ForwardLookupFuture),
}

/// The capability contract every zone backend implements, whatever its
/// storage: a primary file zone, a secondary replica, or a forwarding zone.
///
/// Every name passed to `lookup` or `search` must lie in the zone of
/// `origin()`; handing a name outside it is a routing mistake, answered with
/// an error and never with records.
pub trait Authority {
    /// The zone this backend is responsible for.
    spec fn spec_origin(&self) -> LowerName;

    /// The role of the zone this backend serves.
    spec fn spec_zone_type(&self) -> ZoneType;

    /// Whether a full zone transfer is permitted.
    spec fn spec_axfr_allowed(&self) -> bool;

    /// The role of the zone this backend serves; fixed for its lifetime.
    fn zone_type(&self) -> (r: ZoneType)
        ensures
            r == self.spec_zone_type(),
    ;

    /// Whether a full zone transfer is permitted.
    fn is_axfr_allowed(&self) -> (r: bool)
        ensures
            r == self.spec_axfr_allowed(),
    ;

    /// Applies a dynamic-update transaction; a backend that supports updates
    /// answers whether the zone changed.
    fn update(&mut self, request: &MessageRequest) -> (r: UpdateResult<bool>);

    /// The zone this backend is responsible for; stable for its lifetime.
    fn origin(&self) -> (r: &LowerName)
        ensures
            *r == self.spec_origin(),
    ;

    /// Resolves `name` and `query_type` within this zone. A name outside the
    /// zone of the origin is never answered with records.
    fn lookup(
        &self,
        name: &LowerName,
        query_type: RecordType,
        is_secure: bool,
        supported_algorithms: SupportedAlgorithms,
    ) -> (r: Result<LookupFuture, LookupError>)
        ensures
            !self.spec_origin().spec_zone_of(*name) ==> r is Err,
    ;

    /// Extracts name and type from the question and resolves them exactly as
    /// `lookup` would.
    fn search(
        &self,
        query: &LowerQuery,
        is_secure: bool,
        supported_algorithms: SupportedAlgorithms,
    ) -> (r: Result<LookupFuture, LookupError>)
        ensures
            !self.spec_origin().spec_zone_of(query.spec_name()) ==> r is Err,
    ;

    /// The denial-of-existence records proving a name's non-existence in a
    /// secure zone; a backend without DNSSEC support fails explicitly.
    fn get_nsec_records(
        &self,
        name: &LowerName,
        is_secure: bool,
        supported_algorithms: SupportedAlgorithms,
    ) -> (r: Result<LookupFuture, LookupError>);

    /// Adds a key the zone signs its records with; a backend without a
    /// writable record store fails explicitly.
    fn add_zone_signing_key(&mut self, signer: &Signer) -> (r: Result<(), DnsSecError>);

    /// (Re)signs the zone with its keys; a backend without a writable record
    /// store fails explicitly.
    fn secure_zone(&mut self) -> (r: Result<(), DnsSecError>);
}

} // verus!
