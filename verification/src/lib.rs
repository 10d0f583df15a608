//! The authority-resolution layer of a DNS server: the abstraction that turns
//! an incoming query (name and record type) into a set of resource records,
//! independent of where those records come from.
//!
//! The `Authority` trait is the uniform capability contract every zone
//! backend implements; `ForwardAuthority` satisfies it by delegating to an
//! upstream recursive resolver, whose network round trips the surrounding
//! runtime drives.

pub mod authority;
pub mod dnssec;
pub mod error;
pub mod forwarder;
pub mod lookup;
pub mod name;
pub mod request;
pub mod response_code;
pub mod rr;
pub mod zone_type;

pub use authority::{Authority, LookupFuture, UpdateResult};
pub use dnssec::{DnsSecError, Signer, SupportedAlgorithms};
pub use error::{LookupError, LookupResult};
pub use forwarder::{
    Async, ForwardAuthority, ForwardConfig, ForwardLookup, ForwardLookupFuture, NameServerAddr,
    ResolverOptions, UpstreamConfig, UpstreamPoll,
};
pub use lookup::{AuthLookup, LookupObject};
pub use name::{LowerName, Name};
pub use request::{LowerQuery, MessageRequest};
pub use response_code::ResponseCode;
pub use rr::{Record, RecordType};
pub use zone_type::ZoneType;
