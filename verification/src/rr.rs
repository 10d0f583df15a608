//! Resource records: the typed data a lookup produces.

use vstd::prelude::*;
use crate::name::Name;

verus! {

/// The type of a resource record, with its wire value for types the
/// authority layer does not model by name.
#[derive(Clone, Copy, Debug, PartialEq, Eq, Structural)]
pub enum RecordType {
    /// An IPv4 host address.
    A,
    /// An IPv6 host address.
    AAAA,
    /// The canonical name of an alias.
    CNAME,
    /// A mail exchanger.
    MX,
    /// An authoritative name server.
    NS,
    /// A pointer for reverse lookups.
    PTR,
    /// The start of a zone of authority.
    SOA,
    /// A service locator.
    SRV,
    /// Free-form text.
    TXT,
    /// Any other record type, by its wire value.
    Unknown(u16),
}

impl RecordType {
    /// The numeric value this record type has on the wire.
    pub open spec fn spec_value(self) -> u16 {
        match self {
            RecordType::A => 1,
            RecordType::NS => 2,
            RecordType::CNAME => 5,
            RecordType::SOA => 6,
            RecordType::PTR => 12,
            RecordType::MX => 15,
            RecordType::TXT => 16,
            RecordType::AAAA => 28,
            RecordType::SRV => 33,
            RecordType::Unknown(value) => value,
        }
    }

    /// A record type is canonical when an unknown value does not shadow a
    /// named one; every type this module hands out is.
    pub open spec fn is_canonical(self) -> bool {
        self matches RecordType::Unknown(value) ==> RecordType::spec_from_value(value)
            == RecordType::Unknown(value)
    }

    /// The record type a wire value names.
    pub open spec fn spec_from_value(value: u16) -> RecordType {
        if value == 1 {
            RecordType::A
        } else if value == 2 {
            RecordType::NS
        } else if value == 5 {
            RecordType::CNAME
        } else if value == 6 {
            RecordType::SOA
        } else if value == 12 {
            RecordType::PTR
        } else if value == 15 {
            RecordType::MX
        } else if value == 16 {
            RecordType::TXT
        } else if value == 28 {
            RecordType::AAAA
        } else if value == 33 {
            RecordType::SRV
        } else {
            RecordType::Unknown(value)
        }
    }

    /// Converts this record type to its wire value.
    pub fn to_value(self) -> (r: u16)
        ensures
            r == self.spec_value(),
    {
        match self {
            RecordType::A => 1,
            RecordType::NS => 2,
            RecordType::CNAME => 5,
            RecordType::SOA => 6,
            RecordType::PTR => 12,
            RecordType::MX => 15,
            RecordType::TXT => 16,
            RecordType::AAAA => 28,
            RecordType::SRV => 33,
            RecordType::Unknown(value) => value,
        }
    }

    /// Reads a record type from its wire value; always canonical.
    pub fn from_value(value: u16) -> (r: RecordType)
        ensures
            r == RecordType::spec_from_value(value),
            r.is_canonical(),
    {
        match value {
            1 => RecordType::A,
            2 => RecordType::NS,
            5 => RecordType::CNAME,
            6 => RecordType::SOA,
            12 => RecordType::PTR,
            15 => RecordType::MX,
            16 => RecordType::TXT,
            28 => RecordType::AAAA,
            33 => RecordType::SRV,
            _ => RecordType::Unknown(value),
        }
    }
}

/// A canonical record type survives the trip through its wire value.
pub proof fn lemma_record_type_round_trip(record_type: RecordType)
    requires
        record_type.is_canonical(),
    ensures
        RecordType::spec_from_value(record_type.spec_value()) == record_type,
{
}

/// One resource record: where it lives, what type it has, how long it may be
/// cached, and its data in wire form.
#[derive(Debug)]
pub struct Record {
    /// The name the record is attached to.
    pub name: Name,
    /// The type of the record.
    pub record_type: RecordType,
    /// How many seconds the record may be cached.
    pub ttl: u32,
    /// The record's data, in wire form.
    pub rdata: Vec<u8>,
}

} // verus!
