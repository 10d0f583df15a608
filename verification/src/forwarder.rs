//! The forwarding authority: a zone backend that answers by delegating to an
//! upstream recursive resolver instead of consulting local zone data.

use vstd::prelude::*;
use crate::authority::{Authority, LookupFuture, UpdateResult};
use crate::dnssec::{DnsSecError, Signer, SupportedAlgorithms};
use crate::error::LookupError;
use crate::lookup::LookupObject;
use crate::name::{lower_labels, LowerName, Name};
use crate::request::{LowerQuery, MessageRequest};
use crate::response_code::ResponseCode;
use crate::rr::{Record, RecordType};
use crate::zone_type::ZoneType;

verus! {

/// One upstream name server, as plain values the runtime turns into a real
/// socket address.
#[derive(Clone, Copy, Debug, PartialEq, Eq, Structural)]
pub enum NameServerAddr {
    /// An IPv4 upstream: the address as its 32-bit value, and the port.
    V4 {
        /// The address, most significant octet first.
        ip4: u32,
        /// The UDP/TCP port.
        port: u16,
    },
    /// An IPv6 upstream: the address as its 128-bit value, and the port.
    V6 {
        /// The address, most significant octet first.
        ip6: u128,
        /// The UDP/TCP port.
        port: u16,
    },
}

/// Options the upstream resolver is built with.
#[derive(Clone, Copy, Debug, PartialEq, Eq, Structural)]
pub struct ResolverOptions {
    /// How long one upstream request may take, in milliseconds.
    pub timeout_ms: u64,
    /// How often a request is retried against the upstreams.
    pub attempts: u32,
    /// Whether DNSSEC validation is requested from the upstream.
    pub validate: bool,
}

impl ResolverOptions {
    /// The options used when a configuration names none.
    pub open spec fn spec_default() -> ResolverOptions {
        ResolverOptions { timeout_ms: 5000, attempts: 2, validate: false }
    }
}

impl Default for ResolverOptions {
    /// Five seconds per request, one retry, no validation.
    fn default() -> (r: Self)
        ensures
            r == ResolverOptions::spec_default(),
    {
        ResolverOptions { timeout_ms: 5000, attempts: 2, validate: false }
    }
}

/// Configuration for a forwarding zone: the upstream name servers, and
/// resolver options if any were named.
#[derive(Debug)]
pub struct ForwardConfig {
    /// The upstream name servers, tried in order.
    pub name_servers: Vec<NameServerAddr>,
    /// Resolver options; the defaults apply when absent.
    pub options: Option<ResolverOptions>,
}

/// Where the upstream resolver's configuration comes from, resolved once at
/// construction time.
#[derive(Debug)]
pub enum UpstreamConfig {
    /// The host's system-default resolver configuration, which the runtime
    /// loads when it builds the resolver.
    System,
    /// An explicit set of upstream name servers.
    Explicit {
        /// The upstream name servers, tried in order.
        name_servers: Vec<NameServerAddr>,
        /// The options the resolver is built with.
        options: ResolverOptions,
    },
}

/// The answer an upstream resolver handed back, wrapped as a lookup result.
///
/// The upstream's interface collapses the distinction between the kinds of
/// absence, so this wrapper reports only emptiness and leaves every absence
/// flag false: a known information-loss boundary, surfaced rather than
/// guessed at.
#[derive(Debug)]
pub struct ForwardLookup {
    records: Vec<Record>,
}

impl ForwardLookup {
    /// Wraps the records an upstream resolution produced.
    pub fn new(records: Vec<Record>) -> (r: ForwardLookup)
        ensures
            r.records() == records@,
    {
        ForwardLookup { records }
    }
}

impl LookupObject for ForwardLookup {
    closed spec fn records(&self) -> Seq<Record> {
        self.records@
    }

    open spec fn name_exists_flag(&self) -> bool {
        false
    }

    open spec fn nx_domain_flag(&self) -> bool {
        false
    }

    open spec fn refused_flag(&self) -> bool {
        false
    }

    proof fn absence_has_no_records(&self) {
    }

    fn is_empty(&self) -> (r: bool) {
        self.records.len() == 0
    }

    fn is_name_exists(&self) -> (r: bool) {
        false
    }

    fn is_nx_domain(&self) -> (r: bool) {
        false
    }

    fn is_refused(&self) -> (r: bool) {
        false
    }

    fn iter(&self) -> (r: &Vec<Record>) {
        &self.records
    }
}

/// A pending computation, as the runtime polls it: finished with a value, or
/// not ready yet.
#[derive(Debug)]
pub enum Async<T> {
    /// The computation finished with this value.
    Ready(T),
    /// The computation has not finished yet.
    NotReady,
}

/// What one poll of the upstream resolver's pending lookup yielded, handed
/// back by the runtime that drives the network round trip.
#[derive(Debug)]
pub enum UpstreamPoll {
    /// The upstream completed with these records, possibly none.
    Ready(Vec<Record>),
    /// The upstream has not answered yet.
    NotReady,
    /// The upstream failed.
    Failed(trust_dns_resolver::error::ResolveError),
}

/// A forwarded resolution in flight: the question that was sent upstream,
/// and the classification of whatever the upstream does with it.
#[derive(Debug)]
pub struct ForwardLookupFuture {
    name: LowerName,
    query_type: RecordType,
}

impl ForwardLookupFuture {
    /// The name the upstream was asked for.
    pub closed spec fn spec_name(&self) -> LowerName {
        self.name
    }

    /// The record type the upstream was asked for.
    pub closed spec fn spec_query_type(&self) -> RecordType {
        self.query_type
    }

    /// A forwarded resolution for this question.
    pub fn new(name: LowerName, query_type: RecordType) -> (r: ForwardLookupFuture)
        ensures
            r.spec_name() == name,
            r.spec_query_type() == query_type,
    {
        ForwardLookupFuture { name, query_type }
    }

    /// The name the upstream was asked for.
    pub fn name(&self) -> (r: &LowerName)
        ensures
            *r == self.spec_name(),
    {
        &self.name
    }

    /// The record type the upstream was asked for.
    pub fn query_type(&self) -> (r: RecordType)
        ensures
            r == self.spec_query_type(),
    {
        self.query_type
    }

    /// Classifies one poll of the upstream resolution: a completed answer is
    /// wrapped as a `ForwardLookup` with exactly the upstream's records, a
    /// pending one stays pending, and an upstream failure becomes a
    /// resolve-layer lookup error.
    pub fn poll(&self, upstream: UpstreamPoll) -> (r: Result<Async<ForwardLookup>, LookupError>)
        ensures
            match upstream {
                UpstreamPoll::Ready(records) => r matches Ok(Async::Ready(lookup))
                    && lookup.records() == records@,
                UpstreamPoll::NotReady => r matches Ok(a) && a is NotReady,
                UpstreamPoll::Failed(_) => r matches Err(e) && e is ResolveError && e.wf(),
            },
    {
        match upstream {
            UpstreamPoll::Ready(records) => Ok(Async::Ready(ForwardLookup::new(records))),
            UpstreamPoll::NotReady => Ok(Async::NotReady),
            UpstreamPoll::Failed(e) => Err(LookupError::from_resolve_error(&e)),
        }
    }
}

/// An authority that answers by forwarding resolutions to an upstream
/// resolver. It holds the zone it is responsible for — often the root — and
/// the configuration the runtime builds the upstream resolver from.
#[derive(Debug)]
pub struct ForwardAuthority {
    origin: LowerName,
    upstream: UpstreamConfig,
}

impl ForwardAuthority {
    /// Where the upstream resolver's configuration comes from.
    pub closed spec fn spec_upstream(&self) -> &UpstreamConfig {
        &self.upstream
    }

    /// Where the upstream resolver's configuration comes from, for the
    /// runtime that builds the resolver.
    pub fn upstream(&self) -> (r: &UpstreamConfig)
        ensures
            r == self.spec_upstream(),
    {
        &self.upstream
    }

    /// A forwarder for the whole namespace, resolving through the host's
    /// system-default upstream configuration.
    pub fn new() -> (r: ForwardAuthority)
        ensures
            r.spec_origin()@ == Seq::<Seq<u8>>::empty(),
            r.spec_origin().wf(),
            r.spec_upstream() is System,
    {
        let root = Name::root();
        let origin = LowerName::new(&root);
        proof {
            assert(lower_labels(Seq::<Seq<u8>>::empty()) =~= Seq::<Seq<u8>>::empty());
        }
        ForwardAuthority { origin, upstream: UpstreamConfig::System }
    }

    /// Builds the authority for `origin` from an explicit forwarding
    /// configuration, which must name at least one upstream server; the
    /// requested zone type is ignored, a forwarder always serves a forward
    /// zone.
    pub fn try_from_config(origin: Name, _zone_type: ZoneType, config: &ForwardConfig) -> (r:
        Result<ForwardAuthority, String>)
        ensures
            r is Ok <==> config.name_servers@.len() > 0,
            r matches Ok(a) ==> {
                &&& a.spec_origin()@ == lower_labels(origin@)
                &&& (origin.wf() ==> a.spec_origin().wf())
                &&& (a.spec_upstream() matches UpstreamConfig::Explicit { name_servers, options }
                    && name_servers@ == config.name_servers@ && options == (
                match config.options {
                    Some(named) => named,
                    None => ResolverOptions::spec_default(),
                }))
            },
            r matches Err(message) ==> message@ == "no upstream name servers configured"@,
    {
        if config.name_servers.len() == 0 {
            return Err(String::from_str("no upstream name servers configured"));
        }
        let options = match config.options {
            Some(named) => named,
            None => ResolverOptions::default(),
        };
        let mut name_servers: Vec<NameServerAddr> = Vec::new();
        let mut i: usize = 0;
        while i < config.name_servers.len()
            invariant
                i <= config.name_servers@.len(),
                name_servers@ == config.name_servers@.take(i as int),
            decreases config.name_servers@.len() - i,
        {
            name_servers.push(config.name_servers[i]);
            i = i + 1;
            proof {
                assert(name_servers@ =~= config.name_servers@.take(i as int));
            }
        }
        proof {
            assert(name_servers@ =~= config.name_servers@);
        }
        Ok(
            ForwardAuthority {
                origin: LowerName::new(&origin),
                upstream: UpstreamConfig::Explicit { name_servers, options },
            },
        )
    }
}

impl Authority for ForwardAuthority {
    closed spec fn spec_origin(&self) -> LowerName {
        self.origin
    }

    open spec fn spec_zone_type(&self) -> ZoneType {
        ZoneType::Forward
    }

    open spec fn spec_axfr_allowed(&self) -> bool {
        false
    }

    /// Always a forward zone.
    fn zone_type(&self) -> (r: ZoneType) {
        ZoneType::Forward
    }

    /// Never: forwarded records are not locally enumerable.
    fn is_axfr_allowed(&self) -> (r: bool) {
        false
    }

    /// Always refused as not implemented: forwarding has no local record
    /// store to mutate, and the zone state stays as it was.
    fn update(&mut self, _request: &MessageRequest) -> (r: UpdateResult<bool>)
        ensures
            r == Err::<bool, ResponseCode>(ResponseCode::NotImp),
            *final(self) == *old(self),
    {
        Err(ResponseCode::NotImp)
    }

    fn origin(&self) -> (r: &LowerName) {
        &self.origin
    }

    /// A name in the origin's zone is forwarded upstream as it stands; one
    /// outside it is refused, never answered with records.
    fn lookup(
        &self,
        name: &LowerName,
        query_type: RecordType,
        _is_secure: bool,
        _supported_algorithms: SupportedAlgorithms,
    ) -> (r: Result<LookupFuture, LookupError>)
        ensures
            self.spec_origin().spec_zone_of(*name) ==> (r matches Ok(
                LookupFuture::Forward(f),
            ) && f.spec_name()@ == name@ && f.spec_query_type() == query_type),
            !self.spec_origin().spec_zone_of(*name) ==> r == Err::<LookupFuture, LookupError>(
                LookupError::ResponseCode(ResponseCode::Refused),
            ),
    {
        if self.origin.zone_of(name) {
            Ok(LookupFuture::Forward(ForwardLookupFuture::new(name.clone(), query_type)))
        } else {
            Err(LookupError::from_response_code(ResponseCode::Refused))
        }
    }

    /// Exactly `lookup` on the question's name and type.
    fn search(&self, query: &LowerQuery, is_secure: bool, supported_algorithms: SupportedAlgorithms)
        -> (r: Result<LookupFuture, LookupError>)
        ensures
            self.spec_origin().spec_zone_of(query.spec_name()) ==> (r matches Ok(
                LookupFuture::Forward(f),
            ) && f.spec_name()@ == query.spec_name()@ && f.spec_query_type()
                == query.spec_query_type()),
            !self.spec_origin().spec_zone_of(query.spec_name()) ==> r == Err::<
                LookupFuture,
                LookupError,
            >(LookupError::ResponseCode(ResponseCode::Refused)),
    {
        self.lookup(query.name(), query.query_type(), is_secure, supported_algorithms)
    }

    /// Always refused as not implemented: a forwarder holds no zone data to
    /// prove non-existence from.
    fn get_nsec_records(
        &self,
        _name: &LowerName,
        _is_secure: bool,
        _supported_algorithms: SupportedAlgorithms,
    ) -> (r: Result<LookupFuture, LookupError>)
        ensures
            r == Err::<LookupFuture, LookupError>(
                LookupError::ResponseCode(ResponseCode::NotImp),
            ),
    {
        Err(LookupError::from_response_code(ResponseCode::NotImp))
    }

    /// Always fails: DNSSEC signing needs a local record store, which a
    /// forwarding zone has not; the zone state stays as it was.
    fn add_zone_signing_key(&mut self, _signer: &Signer) -> (r: Result<(), DnsSecError>)
        ensures
            r == Err::<(), DnsSecError>(DnsSecError::NotSupported),
            *final(self) == *old(self),
    {
        Err(DnsSecError::NotSupported)
    }

    /// Always fails: DNSSEC signing needs a local record store, which a
    /// forwarding zone has not; the zone state stays as it was.
    fn secure_zone(&mut self) -> (r: Result<(), DnsSecError>)
        ensures
            r == Err::<(), DnsSecError>(DnsSecError::NotSupported),
            *final(self) == *old(self),
    {
        Err(DnsSecError::NotSupported)
    }
}

} // verus!
