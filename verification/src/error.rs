//! The error taxonomy of a lookup: why no records came back, kept apart from
//! "succeeded with zero records".

use vstd::prelude::*;
use vstd::string::*;
use crate::response_code::ResponseCode;

verus! {

/// Why a lookup failed to produce records.
#[derive(Debug)]
pub enum LookupError {
    /// Records exist at the queried name, but none of the queried type.
    NameExists,
    /// An explicit protocol-level outcome; never the "no error" code.
    ResponseCode(ResponseCode),
    /// A failure surfaced by the upstream resolution mechanism.
    ResolveError(String),
    /// A local I/O failure reclassified as a lookup failure.
    Io(String),
}

impl LookupError {
    /// A lookup error holds a protocol outcome only when the outcome is a
    /// real error: the "no error" code never travels as a `LookupError`.
    pub open spec fn wf(&self) -> bool {
        self matches LookupError::ResponseCode(code) ==> code != ResponseCode::NoError
    }

    /// The protocol outcome this error carries, if any.
    pub open spec fn spec_response_code(&self) -> Option<ResponseCode> {
        match self {
            LookupError::ResponseCode(code) => Some(*code),
            _ => None,
        }
    }

    /// A lookup error saying that a name exists, but no record of the
    /// queried type.
    pub fn for_name_exists() -> (r: Self)
        ensures
            r == LookupError::NameExists,
            r.wf(),
    {
        LookupError::NameExists
    }

    /// Classifies a protocol outcome as a lookup error; the "no error" code
    /// is no failure, so no error may be built from it.
    pub fn from_response_code(code: ResponseCode) -> (r: Self)
        requires
            code != ResponseCode::NoError,
        ensures
            r == LookupError::ResponseCode(code),
            r.wf(),
    {
        LookupError::ResponseCode(code)
    }

    /// Classifies a protocol outcome as a lookup error, rejecting the
    /// "no error" code, which names success and is no failure.
    pub fn try_from_response_code(code: ResponseCode) -> (r: Option<Self>)
        ensures
            r is Some <==> code != ResponseCode::NoError,
            r matches Some(e) ==> e == LookupError::ResponseCode(code) && e.wf(),
    {
        if code.to_value() == 0 {
            None
        } else {
            Some(LookupError::ResponseCode(code))
        }
    }

    /// True if other records exist at the same name, but none of the
    /// queried type.
    pub fn is_name_exists(&self) -> (r: bool)
        ensures
            r == (self is NameExists),
    {
        match *self {
            LookupError::NameExists => true,
            _ => false,
        }
    }

    /// True if the queried name does not exist at all.
    pub fn is_nx_domain(&self) -> (r: bool)
        ensures
            r == (self.spec_response_code() == Some(ResponseCode::NXDomain)),
    {
        match *self {
            LookupError::ResponseCode(ResponseCode::NXDomain) => true,
            _ => false,
        }
    }

    /// True if policy refused to answer.
    pub fn is_refused(&self) -> (r: bool)
        ensures
            r == (self.spec_response_code() == Some(ResponseCode::Refused)),
    {
        match *self {
            LookupError::ResponseCode(ResponseCode::Refused) => true,
            _ => false,
        }
    }

    /// The protocol outcome this error carries, if any.
    pub fn response_code(&self) -> (r: Option<ResponseCode>)
        ensures
            r == self.spec_response_code(),
    {
        match *self {
            LookupError::ResponseCode(code) => Some(code),
            _ => None,
        }
    }

    /// The wire response code a response to the failed lookup carries: a
    /// name that exists without the queried type answers "no error" with no
    /// data, an explicit outcome travels as it is, and resolution or I/O
    /// failures answer "server failure", their detail kept for local
    /// diagnostics only.
    pub fn as_wire_code(&self) -> (r: ResponseCode)
        ensures
            r == match self {
                LookupError::NameExists => ResponseCode::NoError,
                LookupError::ResponseCode(code) => *code,
                LookupError::ResolveError(_) => ResponseCode::ServFail,
                LookupError::Io(_) => ResponseCode::ServFail,
            },
    {
        match self {
            LookupError::NameExists => ResponseCode::NoError,
            LookupError::ResponseCode(code) => *code,
            LookupError::ResolveError(_) => ResponseCode::ServFail,
            LookupError::Io(_) => ResponseCode::ServFail,
        }
    }

    /// The failure rendered as text.
    pub fn to_text(&self) -> (r: String)
        ensures
            r@ == match self {
                LookupError::NameExists => "NameExists"@,
                LookupError::ResponseCode(code) => "response_code: "@ + code.spec_text(),
                LookupError::ResolveError(message) => "resolve_error: "@ + message@,
                LookupError::Io(message) => "io: "@ + message@,
            },
    {
        match self {
            LookupError::NameExists => String::from_str("NameExists"),
            LookupError::ResponseCode(code) => String::from_str("response_code: ").concat(
                code.as_str(),
            ),
            LookupError::ResolveError(message) => String::from_str("resolve_error: ").concat(
                message.as_str(),
            ),
            LookupError::Io(message) => String::from_str("io: ").concat(message.as_str()),
        }
    }
}

impl PartialEq for LookupError {
    /// Two lookup errors are equal when they classify alike and carry the
    /// same detail.
    fn eq(&self, other: &Self) -> (r: bool) {
        match (self, other) {
            (LookupError::NameExists, LookupError::NameExists) => true,
            (LookupError::ResponseCode(a), LookupError::ResponseCode(b)) => *a == *b,
            (LookupError::ResolveError(a), LookupError::ResolveError(b)) => *a == *b,
            (LookupError::Io(a), LookupError::Io(b)) => *a == *b,
            _ => false,
        }
    }
}

impl Eq for LookupError {

}

impl vstd::std_specs::cmp::PartialEqSpecImpl for LookupError {
    open spec fn obeys_eq_spec() -> bool {
        true
    }

    open spec fn eq_spec(&self, other: &Self) -> bool {
        match (self, other) {
            (LookupError::NameExists, LookupError::NameExists) => true,
            (LookupError::ResponseCode(a), LookupError::ResponseCode(b)) => a == b,
            (LookupError::ResolveError(a), LookupError::ResolveError(b)) => a@ == b@,
            (LookupError::Io(a), LookupError::Io(b)) => a@ == b@,
            _ => false,
        }
    }
}

/// An error built from a protocol outcome carries that outcome and nothing
/// else: reading the code back yields the original.
pub proof fn lemma_response_code_round_trip(code: ResponseCode)
    requires
        code != ResponseCode::NoError,
    ensures
        LookupError::ResponseCode(code).spec_response_code() == Some(code),
{
}

/// The upstream resolver's error type, opaque to this layer but for the text
/// it renders to.
#[verifier::external_type_specification]
#[verifier::external_body]
pub struct ExResolveError(trust_dns_resolver::error::ResolveError);

/// Relies on `trust_dns_resolver::error::ResolveError`'s `Display`
/// implementation, through `ToString::to_string`: renders the upstream
/// failure as text for diagnostics.
#[verifier::external_body]
fn resolve_error_text(e: &trust_dns_resolver::error::ResolveError) -> String {
    e.to_string()
}

/// Relies on `std::io::Error`'s `Display` implementation, through
/// `ToString::to_string`: renders the local I/O failure as text for
/// diagnostics.
#[verifier::external_body]
fn io_error_text(e: &std::io::Error) -> String {
    e.to_string()
}

/// The local I/O error type, opaque to this layer but for the text it
/// renders to.
#[verifier::external_type_specification]
#[verifier::external_body]
pub struct ExIoError(std::io::Error);

impl LookupError {
    /// Classifies a failure of the upstream resolution mechanism,
    /// summarizing it to text but keeping its resolve-layer classification.
    pub fn from_resolve_error(e: &trust_dns_resolver::error::ResolveError) -> (r: Self)
        ensures
            r is ResolveError,
            r.wf(),
    {
        LookupError::ResolveError(resolve_error_text(e))
    }

    /// Classifies a local I/O failure, summarizing it to text but keeping
    /// its I/O-layer classification.
    pub fn from_io_error(e: &std::io::Error) -> (r: Self)
        ensures
            r is Io,
            r.wf(),
    {
        LookupError::Io(io_error_text(e))
    }
}

/// The result of a lookup in an authority.
pub type LookupResult<T> = Result<T, LookupError>;

} // verus!
