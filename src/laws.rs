//! Properties of the wire format that hold of every input.

use crate::cert::{
    body1_field, public_key_field, signature_field, version_field, versioned_field, Body1Model,
    PublicKey1Model, Signature1Model, Version1, VersionedModel, BODY1_WIDTH, PUBLIC_KEY_WIDTH, SIGNATURE_WIDTH,
};
use crate::error::{error_text, Error, FormatError};
use crate::kinds::{
    algorithm_field, usage_field, Algorithm, Usage, ALGORITHM_ABSENT, USAGE_ABSENT,
};
use crate::wire::le_u32;
use vstd::prelude::*;

verus! {

/// Each of the six known usage codes decodes to its usage, the absent code
/// decodes to no usage, and every other code is a format error that carries
/// the code.
pub proof fn lemma_usage_codes(s: Seq<u8>)
    requires
        s.len() >= 4,
    ensures
        le_u32(s) == 0x1001 ==> usage_field(s) == Ok::<_, Error>(
            Some(Usage::OwnerCertificateAuthority),
        ),
        le_u32(s) == 0x1002 ==> usage_field(s) == Ok::<_, Error>(
            Some(Usage::PlatformEndorsementKey),
        ),
        le_u32(s) == 0x1003 ==> usage_field(s) == Ok::<_, Error>(
            Some(Usage::PlatformDiffieHellman),
        ),
        le_u32(s) == 0x1004 ==> usage_field(s) == Ok::<_, Error>(Some(Usage::ChipEndorsementKey)),
        le_u32(s) == 0x0000 ==> usage_field(s) == Ok::<_, Error>(Some(Usage::AmdRootKey)),
        le_u32(s) == 0x0013 ==> usage_field(s) == Ok::<_, Error>(Some(Usage::AmdSevKey)),
        le_u32(s) == USAGE_ABSENT ==> usage_field(s) == Ok::<_, Error>(None::<Usage>),
        !(le_u32(s) == 0x1001 || le_u32(s) == 0x1002 || le_u32(s) == 0x1003 || le_u32(s)
            == 0x1004 || le_u32(s) == 0x0000 || le_u32(s) == 0x0013 || le_u32(s)
            == USAGE_ABSENT) ==> usage_field(s) == Err::<Option<Usage>, _>(
            Error::Invalid(FormatError::Usage(le_u32(s))),
        ),
{
}

/// Each of the six known algorithm codes decodes to its algorithm, the absent
/// code decodes to no algorithm, and every other code is a format error that
/// carries the code.
pub proof fn lemma_algorithm_codes(s: Seq<u8>)
    requires
        s.len() >= 4,
    ensures
        le_u32(s) == ALGORITHM_ABSENT ==> algorithm_field(s) == Ok::<_, Error>(
            None::<Algorithm>,
        ),
        le_u32(s) == 0x0001 ==> algorithm_field(s) == Ok::<_, Error>(Some(Algorithm::RsaSha256)),
        le_u32(s) == 0x0002 ==> algorithm_field(s) == Ok::<_, Error>(
            Some(Algorithm::EcdsaSha256),
        ),
        le_u32(s) == 0x0003 ==> algorithm_field(s) == Ok::<_, Error>(Some(Algorithm::EcdhSha256)),
        le_u32(s) == 0x0101 ==> algorithm_field(s) == Ok::<_, Error>(Some(Algorithm::RsaSha384)),
        le_u32(s) == 0x0102 ==> algorithm_field(s) == Ok::<_, Error>(
            Some(Algorithm::EcdsaSha384),
        ),
        le_u32(s) == 0x0103 ==> algorithm_field(s) == Ok::<_, Error>(Some(Algorithm::EcdhSha384)),
        !(le_u32(s) == ALGORITHM_ABSENT || le_u32(s) == 0x0001 || le_u32(s) == 0x0002 || le_u32(
            s,
        ) == 0x0003 || le_u32(s) == 0x0101 || le_u32(s) == 0x0102 || le_u32(s) == 0x0103)
            ==> algorithm_field(s) == Err::<Option<Algorithm>, _>(
            Error::Invalid(FormatError::Algorithm(le_u32(s))),
        ),
{
}

/// A public key with a platform endorsement usage and an RSA SHA-256
/// algorithm decodes, and its key is the 1028 bytes after the two codes,
/// whatever they hold.
pub proof fn lemma_public_key_keeps_key(s: Seq<u8>)
    requires
        s.len() >= PUBLIC_KEY_WIDTH,
        le_u32(s) == 0x1002,
        le_u32(s.skip(4)) == 0x0001,
    ensures
        public_key_field(s) == Ok::<_, Error>(
            PublicKey1Model {
                usage: Usage::PlatformEndorsementKey,
                algo: Algorithm::RsaSha256,
                key: s.subrange(8, PUBLIC_KEY_WIDTH as int),
            },
        ),
{
}

/// A public key whose usage field holds the absent code is a format error,
/// whatever the bytes after it hold.
pub proof fn lemma_public_key_needs_usage(s: Seq<u8>)
    requires
        s.len() >= 4,
        le_u32(s) == USAGE_ABSENT,
    ensures
        public_key_field(s) == Err::<PublicKey1Model, _>(
            Error::Invalid(FormatError::KeyUsageAbsent),
        ),
{
}

/// A full signature slot in which the usage or the algorithm holds its absent
/// code, and neither holds an unknown code, decodes to no signature: no
/// signature is ever half filled.
pub proof fn lemma_signature_absent(s: Seq<u8>)
    requires
        s.len() >= SIGNATURE_WIDTH,
        usage_field(s) is Ok,
        algorithm_field(s.skip(4)) is Ok,
        usage_field(s) == Ok::<_, Error>(None::<Usage>) || algorithm_field(s.skip(4)) == Ok::<
            _,
            Error,
        >(None::<Algorithm>),
    ensures
        signature_field(s) == Ok::<_, Error>(None::<Signature1Model>),
{
}

/// A version one body with a valid public key and two slots that hold the
/// absent codes decodes, with both signatures absent, whatever the reserved
/// bytes hold.
pub proof fn lemma_body_without_signatures(s: Seq<u8>)
    requires
        s.len() >= BODY1_WIDTH,
        s[0] == 1,
        s[1] == 0,
        public_key_field(s.skip(4)) is Ok,
        le_u32(s.skip(1040)) == USAGE_ABSENT,
        le_u32(s.skip(1044)) == ALGORITHM_ABSENT,
        le_u32(s.skip(1560)) == USAGE_ABSENT,
        le_u32(s.skip(1564)) == ALGORITHM_ABSENT,
    ensures
        body1_field(s) == Ok::<_, Error>(
            Body1Model {
                version: Version1(1, 0),
                pubkey: public_key_field(s.skip(4))->Ok_0,
                sig1: None,
                sig2: None,
            },
        ),
{
    assert(s.skip(1040).skip(4) =~= s.skip(1044));
    assert(s.skip(1560).skip(4) =~= s.skip(1564));
}

/// A tag of one selects the version one body; any other tag is a format error
/// that carries the tag, and its text gives the tag in decimal.
pub proof fn lemma_versioned_dispatch(s: Seq<u8>)
    requires
        s.len() >= 4,
    ensures
        le_u32(s) == 1 ==> versioned_field(s) == match body1_field(s.skip(4)) {
            Ok(b) => Ok(VersionedModel::Version1(b)),
            Err(e) => Err(e),
        },
        le_u32(s) != 1 ==> versioned_field(s) == Err::<VersionedModel, _>(
            Error::Invalid(FormatError::Version(le_u32(s))),
        ),
        le_u32(s) == 2 ==> error_text(versioned_field(s)->Err_0) == "version: 2"@,
{
    if le_u32(s) == 2 {
        reveal_strlit("version: 2");
        reveal_strlit("version: ");
        assert(crate::error::decimal(2) =~= seq!['2']);
        assert(error_text(versioned_field(s)->Err_0) =~= "version: 2"@);
    }
}

/// Cutting the input short of a usage or algorithm field makes it a short
/// read; cutting it after the field changes nothing.
pub proof fn lemma_code_field_prefix(s: Seq<u8>, n: int)
    requires
        0 <= n <= s.len(),
    ensures
        usage_field(s.take(n)) == if n < 4 {
            Err(Error::Truncated)
        } else {
            usage_field(s)
        },
        algorithm_field(s.take(n)) == if n < 4 {
            Err(Error::Truncated)
        } else {
            algorithm_field(s)
        },
{
    if n >= 4 {
        assert(le_u32(s.take(n)) == le_u32(s));
    }
}

/// A decoded public key never came from fewer than its width of bytes; cutting
/// such input short of that width makes it a short read, and cutting it after
/// changes nothing.
pub proof fn lemma_public_key_prefix(s: Seq<u8>, n: int)
    requires
        public_key_field(s) is Ok,
        0 <= n <= s.len(),
    ensures
        s.len() >= PUBLIC_KEY_WIDTH,
        public_key_field(s.take(n)) == if n < PUBLIC_KEY_WIDTH {
            Err(Error::Truncated)
        } else {
            public_key_field(s)
        },
{
    let t = s.take(n);
    lemma_code_field_prefix(s, n);
    if n >= 4 {
        assert(t.skip(4) =~= s.skip(4).take(n - 4));
        lemma_code_field_prefix(s.skip(4), n - 4);
    }
    if n >= PUBLIC_KEY_WIDTH {
        assert(t.subrange(8, PUBLIC_KEY_WIDTH as int) =~= s.subrange(8, PUBLIC_KEY_WIDTH as int));
    }
}

/// A decoded signature slot never came from fewer than its width of bytes;
/// cutting such input short of that width makes it a short read, and cutting
/// it after changes nothing.
pub proof fn lemma_signature_prefix(s: Seq<u8>, n: int)
    requires
        signature_field(s) is Ok,
        0 <= n <= s.len(),
    ensures
        s.len() >= SIGNATURE_WIDTH,
        signature_field(s.take(n)) == if n < SIGNATURE_WIDTH {
            Err(Error::Truncated)
        } else {
            signature_field(s)
        },
{
    let t = s.take(n);
    lemma_code_field_prefix(s, n);
    if n >= 4 {
        assert(t.skip(4) =~= s.skip(4).take(n - 4));
        lemma_code_field_prefix(s.skip(4), n - 4);
    }
    if n >= SIGNATURE_WIDTH {
        assert(t.subrange(8, SIGNATURE_WIDTH as int) =~= s.subrange(8, SIGNATURE_WIDTH as int));
    }
}

/// A decoded version one body never came from fewer than its width of bytes;
/// cutting such input short of that width makes it a short read, and cutting
/// it after changes nothing.
pub proof fn lemma_body_prefix(s: Seq<u8>, n: int)
    requires
        body1_field(s) is Ok,
        0 <= n <= s.len(),
    ensures
        s.len() >= BODY1_WIDTH,
        body1_field(s.take(n)) == if n < BODY1_WIDTH {
            Err(Error::Truncated)
        } else {
            body1_field(s)
        },
{
    let t = s.take(n);
    lemma_public_key_prefix(s.skip(4), s.len() - 4);
    lemma_signature_prefix(s.skip(1040), s.len() - 1040);
    lemma_signature_prefix(s.skip(1560), s.len() - 1560);
    if n >= 4 {
        assert(t.skip(4) =~= s.skip(4).take(n - 4));
        lemma_public_key_prefix(s.skip(4), n - 4);
    }
    if n >= 1040 {
        assert(t.skip(1040) =~= s.skip(1040).take(n - 1040));
        lemma_signature_prefix(s.skip(1040), n - 1040);
    }
    if n >= 1560 {
        assert(t.skip(1560) =~= s.skip(1560).take(n - 1560));
        lemma_signature_prefix(s.skip(1560), n - 1560);
    }
    if n >= 2 {
        assert(version_field(t) == version_field(s));
    }
}

/// A decoded certificate never came from fewer than its tag and body width of
/// bytes; cutting such input anywhere short of that width makes it a short
/// read, never a decode of misaligned bytes.
pub proof fn lemma_certificate_prefix(s: Seq<u8>, n: int)
    requires
        versioned_field(s) is Ok,
        0 <= n <= s.len(),
    ensures
        s.len() >= 4 + BODY1_WIDTH,
        versioned_field(s.take(n)) == if n < 4 + BODY1_WIDTH {
            Err(Error::Truncated)
        } else {
            versioned_field(s)
        },
{
    let t = s.take(n);
    lemma_body_prefix(s.skip(4), s.len() - 4);
    if n >= 4 {
        assert(le_u32(t) == le_u32(s));
        assert(t.skip(4) =~= s.skip(4).take(n - 4));
        lemma_body_prefix(s.skip(4), n - 4);
    }
}

} // verus!
