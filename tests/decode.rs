use sev_certs::{
    Algorithm, Body1, Certificate, Error, FormatError, PublicKey1, Signature1, Usage, Version1,
    Versioned,
};

fn le(v: u32) -> Vec<u8> {
    v.to_le_bytes().to_vec()
}

fn key_bytes() -> Vec<u8> {
    (0..1028u32).map(|i| (i * 7 + 3) as u8).collect()
}

fn public_key(usage: u32, algo: u32) -> Vec<u8> {
    let mut b = le(usage);
    b.extend(le(algo));
    b.extend(key_bytes());
    b
}

fn sig_slot(usage: u32, algo: u32, fill: u8) -> Vec<u8> {
    let mut b = le(usage);
    b.extend(le(algo));
    b.extend(vec![fill; 512]);
    b
}

fn body(sig1: Vec<u8>, sig2: Vec<u8>) -> Vec<u8> {
    let mut b = vec![1u8, 0, 0, 0];
    b.extend(public_key(0x1002, 0x0001));
    b.extend(sig1);
    b.extend(sig2);
    b
}

fn certificate() -> Vec<u8> {
    let mut b = le(1);
    b.extend(body(sig_slot(0x1000, 0, 0), sig_slot(0x1000, 0, 0)));
    b
}

#[test]
fn usage_known_codes() {
    let table = [
        (0x1001, Usage::OwnerCertificateAuthority),
        (0x1002, Usage::PlatformEndorsementKey),
        (0x1003, Usage::PlatformDiffieHellman),
        (0x1004, Usage::ChipEndorsementKey),
        (0x0000, Usage::AmdRootKey),
        (0x0013, Usage::AmdSevKey),
    ];
    for (code, usage) in table {
        let bytes = le(code);
        let mut pos = 0usize;
        assert_eq!(Usage::decode(&bytes, &mut pos), Ok(Some(usage)));
        assert_eq!(pos, 4);
    }
}

#[test]
fn usage_absent_and_unknown() {
    let bytes = le(0x1000);
    let mut pos = 0usize;
    assert_eq!(Usage::decode(&bytes, &mut pos), Ok(None));
    assert_eq!(pos, 4);
    for code in [0x0001u32, 0x0fff, 0x1005, 0x0100_1001, 0xffff_ffff] {
        let bytes = le(code);
        let mut pos = 0usize;
        let r = Usage::decode(&bytes, &mut pos);
        assert_eq!(r, Err(Error::Invalid(FormatError::Usage(code))));
        assert!(r.unwrap_err().is_format());
    }
}

#[test]
fn usage_reads_little_endian() {
    let bytes = vec![0x13u8, 0x00, 0x00, 0x00];
    let mut pos = 0usize;
    assert_eq!(Usage::decode(&bytes, &mut pos), Ok(Some(Usage::AmdSevKey)));
    let bytes = vec![0x00u8, 0x00, 0x00, 0x13];
    let mut pos = 0usize;
    assert_eq!(
        Usage::decode(&bytes, &mut pos),
        Err(Error::Invalid(FormatError::Usage(0x1300_0000)))
    );
}

#[test]
fn algorithm_known_codes() {
    let table = [
        (0x0001, Algorithm::RsaSha256),
        (0x0002, Algorithm::EcdsaSha256),
        (0x0003, Algorithm::EcdhSha256),
        (0x0101, Algorithm::RsaSha384),
        (0x0102, Algorithm::EcdsaSha384),
        (0x0103, Algorithm::EcdhSha384),
    ];
    for (code, algo) in table {
        let bytes = le(code);
        let mut pos = 0usize;
        assert_eq!(Algorithm::decode(&bytes, &mut pos), Ok(Some(algo)));
        assert_eq!(pos, 4);
    }
}

#[test]
fn algorithm_absent_and_unknown() {
    let bytes = le(0x0000);
    let mut pos = 0usize;
    assert_eq!(Algorithm::decode(&bytes, &mut pos), Ok(None));
    for code in [0x1000u32, 0x0004, 0x0100, 0x0104, 0xffff_ffff] {
        let bytes = le(code);
        let mut pos = 0usize;
        assert_eq!(
            Algorithm::decode(&bytes, &mut pos),
            Err(Error::Invalid(FormatError::Algorithm(code)))
        );
    }
}

#[test]
fn code_fields_short_input() {
    let bytes = vec![0x01u8, 0x10, 0x00];
    let mut pos = 0usize;
    assert_eq!(Usage::decode(&bytes, &mut pos), Err(Error::Truncated));
    let mut pos = 0usize;
    assert_eq!(Algorithm::decode(&bytes, &mut pos), Err(Error::Truncated));
    let mut pos = 9usize;
    assert_eq!(Usage::decode(&bytes, &mut pos), Err(Error::Truncated));
}

#[test]
fn version_reads_two_raw_bytes() {
    let bytes = vec![0xffu8, 0x07, 0x55];
    let mut pos = 0usize;
    assert_eq!(Version1::decode(&bytes, &mut pos), Ok(Version1(0xff, 0x07)));
    assert_eq!(pos, 2);
    assert_eq!(Version1::decode(&bytes, &mut pos), Err(Error::Truncated));
}

#[test]
fn public_key_keeps_key_bytes() {
    let bytes = public_key(0x1002, 0x0001);
    assert_eq!(bytes.len(), 1036);
    let mut pos = 0usize;
    let k = PublicKey1::decode(&bytes, &mut pos).unwrap();
    assert_eq!(k.usage, Usage::PlatformEndorsementKey);
    assert_eq!(k.algo, Algorithm::RsaSha256);
    assert_eq!(k.key, key_bytes());
    assert_eq!(pos, 1036);
}

#[test]
fn public_key_absent_usage_is_format_error() {
    let mut bytes = public_key(0x1000, 0x0001);
    let mut pos = 0usize;
    assert_eq!(
        PublicKey1::decode(&bytes, &mut pos),
        Err(Error::Invalid(FormatError::KeyUsageAbsent))
    );
    bytes.truncate(4);
    let mut pos = 0usize;
    assert_eq!(
        PublicKey1::decode(&bytes, &mut pos),
        Err(Error::Invalid(FormatError::KeyUsageAbsent))
    );
}

#[test]
fn public_key_absent_algorithm_is_format_error() {
    let bytes = public_key(0x1001, 0x0000);
    let mut pos = 0usize;
    assert_eq!(
        PublicKey1::decode(&bytes, &mut pos),
        Err(Error::Invalid(FormatError::KeyAlgorithmAbsent))
    );
}

#[test]
fn public_key_short_blob_is_truncated() {
    let mut bytes = public_key(0x1002, 0x0001);
    bytes.pop();
    let mut pos = 0usize;
    assert_eq!(PublicKey1::decode(&bytes, &mut pos), Err(Error::Truncated));
}

#[test]
fn signature_both_absent() {
    let mut bytes = sig_slot(0x1000, 0x0000, 0xaa);
    bytes.push(0x42);
    let mut pos = 0usize;
    assert_eq!(Signature1::decode(&bytes, &mut pos), Ok(None));
    assert_eq!(pos, 520);
}

#[test]
fn signature_half_present_is_absent() {
    for (usage, algo) in [(0x1001u32, 0x0000u32), (0x1000, 0x0002)] {
        let bytes = sig_slot(usage, algo, 0x11);
        let mut pos = 0usize;
        assert_eq!(Signature1::decode(&bytes, &mut pos), Ok(None));
        assert_eq!(pos, 520);
    }
}

#[test]
fn signature_present() {
    let bytes = sig_slot(0x1004, 0x0102, 0x5c);
    let mut pos = 0usize;
    let s = Signature1::decode(&bytes, &mut pos).unwrap().unwrap();
    assert_eq!(s.usage, Usage::ChipEndorsementKey);
    assert_eq!(s.algo, Algorithm::EcdsaSha384);
    assert_eq!(s.sig, vec![0x5cu8; 512]);
    assert_eq!(pos, 520);
}

#[test]
fn signature_unknown_code_is_format_error() {
    let bytes = sig_slot(0x1000, 0x0007, 0);
    let mut pos = 0usize;
    assert_eq!(
        Signature1::decode(&bytes, &mut pos),
        Err(Error::Invalid(FormatError::Algorithm(7)))
    );
}

#[test]
fn body_without_signatures() {
    let bytes = body(sig_slot(0x1000, 0, 0), sig_slot(0x1000, 0, 0));
    assert_eq!(bytes.len(), 2080);
    let mut pos = 0usize;
    let b = Body1::decode(&bytes, &mut pos).unwrap();
    assert_eq!(b.version, Version1(1, 0));
    assert_eq!(b.pubkey.usage, Usage::PlatformEndorsementKey);
    assert_eq!(b.pubkey.key, key_bytes());
    assert_eq!(b.sig1, None);
    assert_eq!(b.sig2, None);
    assert_eq!(pos, 2080);
}

#[test]
fn body_ignores_reserved_bytes() {
    let mut bytes = body(sig_slot(0x1000, 0, 0), sig_slot(0x1001, 0x0001, 9));
    bytes[2] = 0xde;
    bytes[3] = 0xad;
    let mut pos = 0usize;
    let b = Body1::decode(&bytes, &mut pos).unwrap();
    assert_eq!(b.sig1, None);
    let s2 = b.sig2.unwrap();
    assert_eq!(s2.usage, Usage::OwnerCertificateAuthority);
    assert_eq!(s2.sig, vec![9u8; 512]);
}

#[test]
fn versioned_unknown_tag() {
    let mut bytes = le(2);
    bytes.extend(body(sig_slot(0x1000, 0, 0), sig_slot(0x1000, 0, 0)));
    let mut pos = 0usize;
    let e = Versioned::decode(&bytes, &mut pos).unwrap_err();
    assert_eq!(e, Error::Invalid(FormatError::Version(2)));
    assert!(e.is_format());
    assert!(e.message().contains('2'));
    assert_eq!(e.message(), "version: 2");
}

#[test]
fn versioned_tag_one_dispatches() {
    let bytes = certificate();
    let mut pos = 0usize;
    let v = Versioned::decode(&bytes, &mut pos).unwrap();
    let Versioned::Version1(b) = v;
    assert_eq!(b.version, Version1(1, 0));
    assert_eq!(pos, 2084);
}

#[test]
fn certificate_decodes_at_cursor() {
    let mut bytes = vec![0xeeu8; 5];
    bytes.extend(certificate());
    let mut pos = 5usize;
    let c = Certificate::decode(&bytes, &mut pos).unwrap();
    let Certificate(Versioned::Version1(b)) = c;
    assert_eq!(b.pubkey.algo, Algorithm::RsaSha256);
    assert_eq!(pos, 2089);
}

#[test]
fn truncation_anywhere_fails() {
    let bytes = certificate();
    for n in 0..bytes.len() {
        let mut pos = 0usize;
        assert_eq!(Certificate::decode(&bytes[..n], &mut pos), Err(Error::Truncated), "cut at {}", n);
    }
}

#[test]
fn dropping_one_byte_never_decodes() {
    let bytes = certificate();
    for i in [0usize, 4, 6, 8, 12, 500, 1043, 1050, 1600, 2083] {
        let mut cut = bytes.clone();
        cut.remove(i);
        let mut pos = 0usize;
        assert!(Certificate::decode(&cut, &mut pos).is_err(), "removed {}", i);
    }
}

#[test]
fn error_messages() {
    assert_eq!(Error::Invalid(FormatError::Usage(0x1234)).message(), "usage: 00001234");
    assert_eq!(
        Error::Invalid(FormatError::Algorithm(0xdead_beef)).message(),
        "algorithm: DEADBEEF"
    );
    assert_eq!(Error::Invalid(FormatError::Version(4096)).message(), "version: 4096");
    assert_eq!(
        Error::Invalid(FormatError::KeyUsageAbsent).message(),
        "public key invalid usage"
    );
    assert_eq!(
        Error::Invalid(FormatError::KeyAlgorithmAbsent).message(),
        "public key invalid algorithm"
    );
    assert_eq!(Error::Truncated.message(), "unexpected end of input");
    assert!(!Error::Truncated.is_format());
}
