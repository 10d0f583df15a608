//! Wire response codes: the protocol-level outcome a DNS response carries.

use vstd::prelude::*;

verus! {

/// A DNS response code (RCODE), restricted to the codes the authority layer
/// produces or inspects.
#[derive(Clone, Copy, Debug, PartialEq, Eq, Structural)]
pub enum ResponseCode {
    /// No error: the query succeeded.
    NoError,
    /// The query was malformed.
    FormErr,
    /// The server failed to complete the request.
    ServFail,
    /// The queried name does not exist.
    NXDomain,
    /// The requested operation is not implemented.
    NotImp,
    /// Policy refused to answer.
    Refused,
    /// A name exists when it should not (dynamic update).
    YXDomain,
    /// A record set exists when it should not (dynamic update).
    YXRRSet,
    /// A record set that should exist does not (dynamic update).
    NXRRSet,
    /// The server is not authoritative for the zone (dynamic update).
    NotAuth,
    /// A name used in the prerequisite section is not within the zone.
    NotZone,
}

impl ResponseCode {
    /// The numeric value this code has on the wire.
    pub open spec fn spec_value(self) -> u16 {
        match self {
            ResponseCode::NoError => 0,
            ResponseCode::FormErr => 1,
            ResponseCode::ServFail => 2,
            ResponseCode::NXDomain => 3,
            ResponseCode::NotImp => 4,
            ResponseCode::Refused => 5,
            ResponseCode::YXDomain => 6,
            ResponseCode::YXRRSet => 7,
            ResponseCode::NXRRSet => 8,
            ResponseCode::NotAuth => 9,
            ResponseCode::NotZone => 10,
        }
    }

    /// The code whose wire value is `value`, if the authority layer knows it.
    pub open spec fn spec_from_value(value: u16) -> Option<ResponseCode> {
        if value == 0 {
            Some(ResponseCode::NoError)
        } else if value == 1 {
            Some(ResponseCode::FormErr)
        } else if value == 2 {
            Some(ResponseCode::ServFail)
        } else if value == 3 {
            Some(ResponseCode::NXDomain)
        } else if value == 4 {
            Some(ResponseCode::NotImp)
        } else if value == 5 {
            Some(ResponseCode::Refused)
        } else if value == 6 {
            Some(ResponseCode::YXDomain)
        } else if value == 7 {
            Some(ResponseCode::YXRRSet)
        } else if value == 8 {
            Some(ResponseCode::NXRRSet)
        } else if value == 9 {
            Some(ResponseCode::NotAuth)
        } else if value == 10 {
            Some(ResponseCode::NotZone)
        } else {
            None
        }
    }

    /// Converts this code to its wire value.
    pub fn to_value(self) -> (r: u16)
        ensures
            r == self.spec_value(),
    {
        match self {
            ResponseCode::NoError => 0,
            ResponseCode::FormErr => 1,
            ResponseCode::ServFail => 2,
            ResponseCode::NXDomain => 3,
            ResponseCode::NotImp => 4,
            ResponseCode::Refused => 5,
            ResponseCode::YXDomain => 6,
            ResponseCode::YXRRSet => 7,
            ResponseCode::NXRRSet => 8,
            ResponseCode::NotAuth => 9,
            ResponseCode::NotZone => 10,
        }
    }

    /// Reads a code back from its wire value; `None` for a value the
    /// authority layer does not know.
    pub fn from_value(value: u16) -> (r: Option<ResponseCode>)
        ensures
            r == ResponseCode::spec_from_value(value),
    {
        match value {
            0 => Some(ResponseCode::NoError),
            1 => Some(ResponseCode::FormErr),
            2 => Some(ResponseCode::ServFail),
            3 => Some(ResponseCode::NXDomain),
            4 => Some(ResponseCode::NotImp),
            5 => Some(ResponseCode::Refused),
            6 => Some(ResponseCode::YXDomain),
            7 => Some(ResponseCode::YXRRSet),
            8 => Some(ResponseCode::NXRRSet),
            9 => Some(ResponseCode::NotAuth),
            10 => Some(ResponseCode::NotZone),
            _ => None,
        }
    }
}

impl ResponseCode {
    /// The code's name as text.
    pub open spec fn spec_text(self) -> Seq<char> {
        match self {
            ResponseCode::NoError => "NoError"@,
            ResponseCode::FormErr => "FormErr"@,
            ResponseCode::ServFail => "ServFail"@,
            ResponseCode::NXDomain => "NXDomain"@,
            ResponseCode::NotImp => "NotImp"@,
            ResponseCode::Refused => "Refused"@,
            ResponseCode::YXDomain => "YXDomain"@,
            ResponseCode::YXRRSet => "YXRRSet"@,
            ResponseCode::NXRRSet => "NXRRSet"@,
            ResponseCode::NotAuth => "NotAuth"@,
            ResponseCode::NotZone => "NotZone"@,
        }
    }

    /// The code's name as text.
    pub fn as_str(self) -> (r: &'static str)
        ensures
            r@ == self.spec_text(),
    {
        match self {
            ResponseCode::NoError => "NoError",
            ResponseCode::FormErr => "FormErr",
            ResponseCode::ServFail => "ServFail",
            ResponseCode::NXDomain => "NXDomain",
            ResponseCode::NotImp => "NotImp",
            ResponseCode::Refused => "Refused",
            ResponseCode::YXDomain => "YXDomain",
            ResponseCode::YXRRSet => "YXRRSet",
            ResponseCode::NXRRSet => "NXRRSet",
            ResponseCode::NotAuth => "NotAuth",
            ResponseCode::NotZone => "NotZone",
        }
    }
}

/// A response code survives the trip through its wire value: reading the
/// written value back yields the original code.
pub proof fn lemma_value_round_trip(code: ResponseCode)
    ensures
        ResponseCode::spec_from_value(code.spec_value()) == Some(code),
{
}

} // verus!
