//! The two coded enumerations of a key or signature header, each with a wire
//! code that stands for "no value".

use crate::error::{Error, FormatError};
use crate::wire::{le_u32, read_u32, remaining};
use vstd::prelude::*;

verus! {

/// The role a key plays in the platform's certificate chain.
#[derive(Debug, Clone, Copy, PartialEq, Eq, Structural)]
pub enum Usage {
    OwnerCertificateAuthority,
    PlatformEndorsementKey,
    PlatformDiffieHellman,
    ChipEndorsementKey,
    AmdRootKey,
    AmdSevKey,
}

/// The signing or key-exchange algorithm of a key or signature.
#[derive(Debug, Clone, Copy, PartialEq, Eq, Structural)]
pub enum Algorithm {
    RsaSha256,
    EcdsaSha256,
    EcdhSha256,
    RsaSha384,
    EcdsaSha384,
    EcdhSha384,
}

/// The usage wire code that means "no usage".
pub const USAGE_ABSENT: u32 = 0x1000;

/// The algorithm wire code that means "no algorithm".
pub const ALGORITHM_ABSENT: u32 = 0x0000;

/// What a usage wire code means: a usage, the absent value, or a format error.
pub open spec fn usage_of_code(code: u32) -> Result<Option<Usage>, Error> {
    if code == 0x1001 {
        Ok(Some(Usage::OwnerCertificateAuthority))
    } else if code == 0x1002 {
        Ok(Some(Usage::PlatformEndorsementKey))
    } else if code == 0x1003 {
        Ok(Some(Usage::PlatformDiffieHellman))
    } else if code == 0x1004 {
        Ok(Some(Usage::ChipEndorsementKey))
    } else if code == 0x0000 {
        Ok(Some(Usage::AmdRootKey))
    } else if code == 0x0013 {
        Ok(Some(Usage::AmdSevKey))
    } else if code == USAGE_ABSENT {
        Ok(None)
    } else {
        Err(Error::Invalid(FormatError::Usage(code)))
    }
}

/// What an algorithm wire code means: an algorithm, the absent value, or a
/// format error.
pub open spec fn algorithm_of_code(code: u32) -> Result<Option<Algorithm>, Error> {
    if code == ALGORITHM_ABSENT {
        Ok(None)
    } else if code == 0x0001 {
        Ok(Some(Algorithm::RsaSha256))
    } else if code == 0x0002 {
        Ok(Some(Algorithm::EcdsaSha256))
    } else if code == 0x0003 {
        Ok(Some(Algorithm::EcdhSha256))
    } else if code == 0x0101 {
        Ok(Some(Algorithm::RsaSha384))
    } else if code == 0x0102 {
        Ok(Some(Algorithm::EcdsaSha384))
    } else if code == 0x0103 {
        Ok(Some(Algorithm::EcdhSha384))
    } else {
        Err(Error::Invalid(FormatError::Algorithm(code)))
    }
}

/// The outcome of reading a usage field at the front of `s`.
pub open spec fn usage_field(s: Seq<u8>) -> Result<Option<Usage>, Error> {
    if s.len() < 4 {
        Err(Error::Truncated)
    } else {
        usage_of_code(le_u32(s))
    }
}

/// The outcome of reading an algorithm field at the front of `s`.
pub open spec fn algorithm_field(s: Seq<u8>) -> Result<Option<Algorithm>, Error> {
    if s.len() < 4 {
        Err(Error::Truncated)
    } else {
        algorithm_of_code(le_u32(s))
    }
}

impl Usage {
    /// Maps a usage wire code to its meaning.
    pub fn from_code(code: u32) -> (r: Result<Option<Usage>, Error>)
        ensures
            r == usage_of_code(code),
    {
        match code {
            0x1001 => Ok(Some(Usage::OwnerCertificateAuthority)),
            0x1002 => Ok(Some(Usage::PlatformEndorsementKey)),
            0x1003 => Ok(Some(Usage::PlatformDiffieHellman)),
            0x1004 => Ok(Some(Usage::ChipEndorsementKey)),
            0x0000 => Ok(Some(Usage::AmdRootKey)),
            0x0013 => Ok(Some(Usage::AmdSevKey)),
            USAGE_ABSENT => Ok(None),
            _ => Err(Error::Invalid(FormatError::Usage(code))),
        }
    }

    /// Reads a four-byte usage field at the cursor. On success the cursor
    /// moves four bytes on; `None` is the absent code.
    pub fn decode(bytes: &[u8], pos: &mut usize) -> (r: Result<Option<Usage>, Error>)
        ensures
            r == usage_field(remaining(bytes@, *old(pos) as int)),
            r is Ok ==> *final(pos) == *old(pos) + 4,
    {
        match read_u32(bytes, pos) {
            None => Err(Error::Truncated),
            Some(code) => Usage::from_code(code),
        }
    }
}

impl Algorithm {
    /// Maps an algorithm wire code to its meaning.
    pub fn from_code(code: u32) -> (r: Result<Option<Algorithm>, Error>)
        ensures
            r == algorithm_of_code(code),
    {
        match code {
            ALGORITHM_ABSENT => Ok(None),
            0x0001 => Ok(Some(Algorithm::RsaSha256)),
            0x0002 => Ok(Some(Algorithm::EcdsaSha256)),
            0x0003 => Ok(Some(Algorithm::EcdhSha256)),
            0x0101 => Ok(Some(Algorithm::RsaSha384)),
            0x0102 => Ok(Some(Algorithm::EcdsaSha384)),
            0x0103 => Ok(Some(Algorithm::EcdhSha384)),
            _ => Err(Error::Invalid(FormatError::Algorithm(code))),
        }
    }

    /// Reads a four-byte algorithm field at the cursor. On success the cursor
    /// moves four bytes on; `None` is the absent code.
    pub fn decode(bytes: &[u8], pos: &mut usize) -> (r: Result<Option<Algorithm>, Error>)
        ensures
            r == algorithm_field(remaining(bytes@, *old(pos) as int)),
            r is Ok ==> *final(pos) == *old(pos) + 4,
    {
        match read_u32(bytes, pos) {
            None => Err(Error::Truncated),
            Some(code) => Algorithm::from_code(code),
        }
    }
}

} // verus!
