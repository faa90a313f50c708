//! The composite structures of a certificate and their decoders.

use crate::error::{Error, FormatError};
use crate::kinds::{algorithm_field, usage_field, Algorithm, Usage};
use crate::wire::{lemma_remaining_advance, le_u32, read_exact, read_u32, read_u8, remaining};
use vstd::prelude::*;

verus! {

/// Length of the key blob of a public key.
pub const KEY_LEN: usize = 1028;

/// Length of the signature blob of a signature slot.
pub const SIG_LEN: usize = 512;

/// Wire width of a public key: usage, algorithm and key blob.
pub const PUBLIC_KEY_WIDTH: usize = 1036;

/// Wire width of a signature slot: usage, algorithm and signature blob.
pub const SIGNATURE_WIDTH: usize = 520;

/// Wire width of a version one body.
pub const BODY1_WIDTH: usize = 2080;

/// The body format tag of a version one body.
pub const BODY1_TAG: u32 = 1;

/// A body format version: major, then minor.
#[derive(Debug, Clone, Copy, PartialEq, Eq, Structural)]
pub struct Version1(pub u8, pub u8);

/// A public key with both its usage and its algorithm present.
#[derive(Debug, Clone, PartialEq, Eq)]
pub struct PublicKey1 {
    pub usage: Usage,
    pub algo: Algorithm,
    pub key: Vec<u8>,
}

/// A signature with both its usage and its algorithm present.
#[derive(Debug, Clone, PartialEq, Eq)]
pub struct Signature1 {
    pub usage: Usage,
    pub algo: Algorithm,
    pub sig: Vec<u8>,
}

/// A version one body: a version, the public key and two optional signatures.
#[derive(Debug, Clone, PartialEq, Eq)]
pub struct Body1 {
    pub version: Version1,
    pub pubkey: PublicKey1,
    pub sig1: Option<Signature1>,
    pub sig2: Option<Signature1>,
}

/// A body, tagged by its format.
#[derive(Debug, Clone, PartialEq, Eq)]
pub enum Versioned {
    Version1(Body1),
}

/// A certificate: one tagged body.
#[derive(Debug, Clone, PartialEq, Eq)]
pub struct Certificate(pub Versioned);

/// The mathematical value of a [`PublicKey1`].
pub struct PublicKey1Model {
    pub usage: Usage,
    pub algo: Algorithm,
    pub key: Seq<u8>,
}

/// The mathematical value of a [`Signature1`].
pub struct Signature1Model {
    pub usage: Usage,
    pub algo: Algorithm,
    pub sig: Seq<u8>,
}

/// The mathematical value of a [`Body1`].
pub struct Body1Model {
    pub version: Version1,
    pub pubkey: PublicKey1Model,
    pub sig1: Option<Signature1Model>,
    pub sig2: Option<Signature1Model>,
}

/// The mathematical value of a [`Versioned`] body, and of a [`Certificate`].
pub enum VersionedModel {
    Version1(Body1Model),
}

impl View for PublicKey1 {
    type V = PublicKey1Model;

    open spec fn view(&self) -> PublicKey1Model {
        PublicKey1Model { usage: self.usage, algo: self.algo, key: self.key@ }
    }
}

impl View for Signature1 {
    type V = Signature1Model;

    open spec fn view(&self) -> Signature1Model {
        Signature1Model { usage: self.usage, algo: self.algo, sig: self.sig@ }
    }
}

/// The model of an optional signature.
pub open spec fn signature_view(s: Option<Signature1>) -> Option<Signature1Model> {
    match s {
        Some(x) => Some(x@),
        None => None,
    }
}

impl View for Body1 {
    type V = Body1Model;

    open spec fn view(&self) -> Body1Model {
        Body1Model {
            version: self.version,
            pubkey: self.pubkey@,
            sig1: signature_view(self.sig1),
            sig2: signature_view(self.sig2),
        }
    }
}

impl View for Versioned {
    type V = VersionedModel;

    open spec fn view(&self) -> VersionedModel {
        match self {
            Versioned::Version1(b) => VersionedModel::Version1(b@),
        }
    }
}

impl View for Certificate {
    type V = VersionedModel;

    open spec fn view(&self) -> VersionedModel {
        self.0@
    }
}

/// A decode result with its value replaced by the value's model.
pub open spec fn viewed<T: View>(r: Result<T, Error>) -> Result<T::V, Error> {
    match r {
        Ok(v) => Ok(v@),
        Err(e) => Err(e),
    }
}

/// A signature slot's decode result with its value replaced by the value's model.
pub open spec fn viewed_signature(r: Result<Option<Signature1>, Error>) -> Result<
    Option<Signature1Model>,
    Error,
> {
    match r {
        Ok(o) => Ok(signature_view(o)),
        Err(e) => Err(e),
    }
}

/// The outcome of reading a version field at the front of `s`.
pub open spec fn version_field(s: Seq<u8>) -> Result<Version1, Error> {
    if s.len() < 2 {
        Err(Error::Truncated)
    } else {
        Ok(Version1(s[0], s[1]))
    }
}

/// The outcome of reading a public key at the front of `s`: usage, then
/// algorithm, both required to be present, then the key blob.
pub open spec fn public_key_field(s: Seq<u8>) -> Result<PublicKey1Model, Error> {
    match usage_field(s) {
        Err(e) => Err(e),
        Ok(None) => Err(Error::Invalid(FormatError::KeyUsageAbsent)),
        Ok(Some(usage)) => match algorithm_field(s.skip(4)) {
            Err(e) => Err(e),
            Ok(None) => Err(Error::Invalid(FormatError::KeyAlgorithmAbsent)),
            Ok(Some(algo)) => if s.len() < PUBLIC_KEY_WIDTH {
                Err(Error::Truncated)
            } else {
                Ok(PublicKey1Model { usage, algo, key: s.subrange(8, PUBLIC_KEY_WIDTH as int) })
            },
        },
    }
}

/// The outcome of reading a signature slot at the front of `s`: usage, then
/// algorithm, then the signature blob, which is read whatever the two fields
/// hold. The signature is there only where both fields are present.
pub open spec fn signature_field(s: Seq<u8>) -> Result<Option<Signature1Model>, Error> {
    match usage_field(s) {
        Err(e) => Err(e),
        Ok(usage) => match algorithm_field(s.skip(4)) {
            Err(e) => Err(e),
            Ok(algo) => if s.len() < SIGNATURE_WIDTH {
                Err(Error::Truncated)
            } else if usage is Some && algo is Some {
                Ok(
                    Some(
                        Signature1Model {
                            usage: usage->0,
                            algo: algo->0,
                            sig: s.subrange(8, SIGNATURE_WIDTH as int),
                        },
                    ),
                )
            } else {
                Ok(None)
            },
        },
    }
}

/// The outcome of reading a version one body at the front of `s`: version,
/// two reserved bytes of any value, public key, and two signature slots.
pub open spec fn body1_field(s: Seq<u8>) -> Result<Body1Model, Error> {
    match version_field(s) {
        Err(e) => Err(e),
        Ok(version) => if s.len() < 4 {
            Err(Error::Truncated)
        } else {
            match public_key_field(s.skip(4)) {
                Err(e) => Err(e),
                Ok(pubkey) => match signature_field(s.skip(1040)) {
                    Err(e) => Err(e),
                    Ok(sig1) => match signature_field(s.skip(1560)) {
                        Err(e) => Err(e),
                        Ok(sig2) => Ok(Body1Model { version, pubkey, sig1, sig2 }),
                    },
                },
            }
        },
    }
}

/// The outcome of reading a tagged body at the front of `s`: a four-byte tag,
/// then the body of the format that the tag names.
pub open spec fn versioned_field(s: Seq<u8>) -> Result<VersionedModel, Error> {
    if s.len() < 4 {
        Err(Error::Truncated)
    } else if le_u32(s) == BODY1_TAG {
        match body1_field(s.skip(4)) {
            Err(e) => Err(e),
            Ok(b) => Ok(VersionedModel::Version1(b)),
        }
    } else {
        Err(Error::Invalid(FormatError::Version(le_u32(s))))
    }
}

impl Version1 {
    /// Reads the major and then the minor byte at the cursor, with no check on
    /// either. On success the cursor moves two bytes on.
    pub fn decode(bytes: &[u8], pos: &mut usize) -> (r: Result<Version1, Error>)
        ensures
            r == version_field(remaining(bytes@, *old(pos) as int)),
            r is Ok ==> *final(pos) == *old(pos) + 2,
    {
        let ghost p0 = *pos as int;
        let major = match read_u8(bytes, pos) {
            None => return Err(Error::Truncated),
            Some(b) => b,
        };
        proof {
            lemma_remaining_advance(bytes@, p0, 1);
        }
        let minor = match read_u8(bytes, pos) {
            None => return Err(Error::Truncated),
            Some(b) => b,
        };
        Ok(Version1(major, minor))
    }
}

impl PublicKey1 {
    /// Reads a public key at the cursor: usage, algorithm, then exactly
    /// [`KEY_LEN`] key bytes. Either field holding its absent code is a format
    /// error. On success the cursor moves [`PUBLIC_KEY_WIDTH`] bytes on.
    pub fn decode(bytes: &[u8], pos: &mut usize) -> (r: Result<PublicKey1, Error>)
        ensures
            viewed(r) == public_key_field(remaining(bytes@, *old(pos) as int)),
            r is Ok ==> *final(pos) == *old(pos) + PUBLIC_KEY_WIDTH,
    {
        let ghost p0 = *pos as int;
        let ghost s = remaining(bytes@, p0);
        let usage = match Usage::decode(bytes, pos) {
            Err(e) => return Err(e),
            Ok(None) => return Err(Error::Invalid(FormatError::KeyUsageAbsent)),
            Ok(Some(u)) => u,
        };
        proof {
            lemma_remaining_advance(bytes@, p0, 4);
        }
        let algo = match Algorithm::decode(bytes, pos) {
            Err(e) => return Err(e),
            Ok(None) => return Err(Error::Invalid(FormatError::KeyAlgorithmAbsent)),
            Ok(Some(a)) => a,
        };
        proof {
            lemma_remaining_advance(bytes@, p0, 8);
        }
        let key = match read_exact(bytes, pos, KEY_LEN) {
            None => return Err(Error::Truncated),
            Some(k) => k,
        };
        assert(key@ =~= s.subrange(8, PUBLIC_KEY_WIDTH as int));
        Ok(PublicKey1 { usage, algo, key })
    }
}

impl Signature1 {
    /// Reads a signature slot at the cursor: usage, algorithm, then exactly
    /// [`SIG_LEN`] signature bytes, which are consumed whatever the two fields
    /// hold. The result is `None` unless both fields are present. On success
    /// the cursor moves [`SIGNATURE_WIDTH`] bytes on.
    pub fn decode(bytes: &[u8], pos: &mut usize) -> (r: Result<Option<Signature1>, Error>)
        ensures
            viewed_signature(r) == signature_field(remaining(bytes@, *old(pos) as int)),
            r is Ok ==> *final(pos) == *old(pos) + SIGNATURE_WIDTH,
    {
        let ghost p0 = *pos as int;
        let ghost s = remaining(bytes@, p0);
        let usage = match Usage::decode(bytes, pos) {
            Err(e) => return Err(e),
            Ok(u) => u,
        };
        proof {
            lemma_remaining_advance(bytes@, p0, 4);
        }
        let algo = match Algorithm::decode(bytes, pos) {
            Err(e) => return Err(e),
            Ok(a) => a,
        };
        proof {
            lemma_remaining_advance(bytes@, p0, 8);
        }
        let sig = match read_exact(bytes, pos, SIG_LEN) {
            None => return Err(Error::Truncated),
            Some(b) => b,
        };
        assert(sig@ =~= s.subrange(8, SIGNATURE_WIDTH as int));
        match (usage, algo) {
            (Some(usage), Some(algo)) => Ok(Some(Signature1 { usage, algo, sig })),
            _ => Ok(None),
        }
    }
}

impl Body1 {
    /// Reads a version one body at the cursor: version, two reserved bytes
    /// (consumed, value ignored), public key, then two signature slots. On
    /// success the cursor moves [`BODY1_WIDTH`] bytes on.
    pub fn decode(bytes: &[u8], pos: &mut usize) -> (r: Result<Body1, Error>)
        ensures
            viewed(r) == body1_field(remaining(bytes@, *old(pos) as int)),
            r is Ok ==> *final(pos) == *old(pos) + BODY1_WIDTH,
    {
        let ghost p0 = *pos as int;
        let ghost s = remaining(bytes@, p0);
        let version = match Version1::decode(bytes, pos) {
            Err(e) => return Err(e),
            Ok(v) => v,
        };
        proof {
            lemma_remaining_advance(bytes@, p0, 2);
        }
        if read_u8(bytes, pos).is_none() {
            return Err(Error::Truncated);
        }
        proof {
            lemma_remaining_advance(bytes@, p0, 3);
        }
        if read_u8(bytes, pos).is_none() {
            return Err(Error::Truncated);
        }
        proof {
            lemma_remaining_advance(bytes@, p0, 4);
        }
        let pubkey = match PublicKey1::decode(bytes, pos) {
            Err(e) => return Err(e),
            Ok(k) => k,
        };
        proof {
            lemma_remaining_advance(bytes@, p0, 1040);
            assert(s.skip(4).len() >= PUBLIC_KEY_WIDTH);
        }
        let sig1 = match Signature1::decode(bytes, pos) {
            Err(e) => return Err(e),
            Ok(g) => g,
        };
        proof {
            lemma_remaining_advance(bytes@, p0, 1560);
        }
        let sig2 = match Signature1::decode(bytes, pos) {
            Err(e) => return Err(e),
            Ok(g) => g,
        };
        Ok(Body1 { version, pubkey, sig1, sig2 })
    }
}

impl Versioned {
    /// Reads a four-byte little-endian format tag at the cursor, then the body
    /// of that format. Only [`BODY1_TAG`] names a format; any other tag is a
    /// format error. On success the cursor moves past tag and body.
    pub fn decode(bytes: &[u8], pos: &mut usize) -> (r: Result<Versioned, Error>)
        ensures
            viewed(r) == versioned_field(remaining(bytes@, *old(pos) as int)),
            r is Ok ==> *final(pos) == *old(pos) + 4 + BODY1_WIDTH,
    {
        let ghost p0 = *pos as int;
        let tag = match read_u32(bytes, pos) {
            None => return Err(Error::Truncated),
            Some(t) => t,
        };
        proof {
            lemma_remaining_advance(bytes@, p0, 4);
        }
        if tag == BODY1_TAG {
            match Body1::decode(bytes, pos) {
                Err(e) => Err(e),
                Ok(b) => Ok(Versioned::Version1(b)),
            }
        } else {
            Err(Error::Invalid(FormatError::Version(tag)))
        }
    }
}

impl Certificate {
    /// Reads a certificate at the cursor: one tagged body, with nothing before
    /// or after it. On success the cursor moves past it.
    pub fn decode(bytes: &[u8], pos: &mut usize) -> (r: Result<Certificate, Error>)
        ensures
            viewed(r) == versioned_field(remaining(bytes@, *old(pos) as int)),
            r is Ok ==> *final(pos) == *old(pos) + 4 + BODY1_WIDTH,
    {
        match Versioned::decode(bytes, pos) {
            Err(e) => Err(e),
            Ok(v) => Ok(Certificate(v)),
        }
    }
}

} // verus!
