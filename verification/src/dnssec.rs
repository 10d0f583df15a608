//! The capability hooks through which a zone declares DNSSEC support, and
//! the error a backend without such support answers them with.

use vstd::prelude::*;

verus! {

/// The DNSSEC algorithms a client announced support for, as a bit mask.
#[derive(Clone, Copy, Debug, PartialEq, Eq, Structural)]
pub struct SupportedAlgorithms {
    mask: u8,
}

impl SupportedAlgorithms {
    /// The raw bit mask.
    pub closed spec fn spec_mask(self) -> u8 {
        self.mask
    }

    /// No algorithm supported.
    pub fn new() -> (r: SupportedAlgorithms)
        ensures
            r.spec_mask() == 0,
    {
        SupportedAlgorithms { mask: 0 }
    }

    /// The set of algorithms this mask encodes.
    pub fn from_mask(mask: u8) -> (r: SupportedAlgorithms)
        ensures
            r.spec_mask() == mask,
    {
        SupportedAlgorithms { mask }
    }

    /// The raw bit mask.
    pub fn mask(self) -> (r: u8)
        ensures
            r == self.spec_mask(),
    {
        self.mask
    }
}

/// Key material a zone would sign its records with.
#[derive(Debug)]
pub struct Signer {
    /// The encoded signing key.
    pub key_data: Vec<u8>,
}

/// Why a DNSSEC capability hook failed.
#[derive(Clone, Copy, Debug, PartialEq, Eq, Structural)]
pub enum DnsSecError {
    /// The backend holds no record store to sign.
    NotSupported,
}

impl DnsSecError {
    /// The failure rendered as text.
    pub fn description(self) -> (r: &'static str)
        ensures
            r@ == "DNSSEC is not supported by this zone backend"@,
    {
        "DNSSEC is not supported by this zone backend"
    }
}

} // verus!
