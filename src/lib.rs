//! Decoding of SEV platform certificates from their little-endian wire form.
//!
//! Every decoder reads from a byte slice at a cursor position and, on success,
//! advances the cursor by the fixed width of what it read. Each decoder's
//! contract states its result over a mathematical parse of the bytes that
//! remain.

mod cert;
mod error;
mod kinds;
mod laws;
mod wire;

pub use cert::{
    body1_field, public_key_field, signature_field, signature_view, version_field,
    versioned_field, viewed, viewed_signature, Body1, Body1Model, Certificate, PublicKey1,
    PublicKey1Model, Signature1, Signature1Model, Version1, Versioned, VersionedModel, BODY1_TAG,
    BODY1_WIDTH, KEY_LEN, PUBLIC_KEY_WIDTH, SIGNATURE_WIDTH, SIG_LEN,
};
pub use error::{decimal, error_text, hex_digit, hex_digits, Error, FormatError};
pub use kinds::{
    algorithm_field, algorithm_of_code, usage_field, usage_of_code, Algorithm, Usage,
    ALGORITHM_ABSENT, USAGE_ABSENT,
};
pub use laws::{
    lemma_algorithm_codes, lemma_body_prefix, lemma_body_without_signatures,
    lemma_certificate_prefix, lemma_code_field_prefix, lemma_public_key_keeps_key,
    lemma_public_key_needs_usage, lemma_public_key_prefix, lemma_signature_absent,
    lemma_signature_prefix, lemma_usage_codes, lemma_versioned_dispatch,
};
pub use wire::{le_u32, remaining};
