//! The ways a decode can fail.

use vstd::prelude::*;
use vstd::string::StringExecFns;

verus! {

/// A structural violation in otherwise readable bytes.
#[derive(Debug, Clone, Copy, PartialEq, Eq, Structural)]
pub enum FormatError {
    /// A usage code outside the known set that is not the absent code.
    Usage(u32),
    /// An algorithm code outside the known set that is not the absent code.
    Algorithm(u32),
    /// A body format tag with no decoder.
    Version(u32),
    /// A public key whose usage field holds the absent code.
    KeyUsageAbsent,
    /// A public key whose algorithm field holds the absent code.
    KeyAlgorithmAbsent,
}

/// Why a decode failed. The first failure aborts the whole decode.
#[derive(Debug, Clone, Copy, PartialEq, Eq, Structural)]
pub enum Error {
    /// The bytes do not form a valid structure.
    Invalid(FormatError),
    /// Fewer bytes remained than a fixed-size field needs.
    Truncated,
}

/// The character of a digit below sixteen, upper case for ten and above.
pub open spec fn hex_digit(d: int) -> char
    recommends
        0 <= d < 16,
{
    seq!['0', '1', '2', '3', '4', '5', '6', '7', '8', '9', 'A', 'B', 'C', 'D', 'E', 'F'][d]
}

/// The lowest `n` hexadecimal digits of `v`, most significant first.
pub open spec fn hex_digits(v: nat, n: nat) -> Seq<char>
    decreases n,
{
    if n == 0 {
        Seq::empty()
    } else {
        hex_digits(v / 16, (n - 1) as nat).push(hex_digit((v % 16) as int))
    }
}

/// The decimal digits of `v`, most significant first, with no leading zero.
pub open spec fn decimal(v: nat) -> Seq<char>
    decreases v,
{
    if v < 10 {
        seq![hex_digit(v as int)]
    } else {
        decimal(v / 10).push(hex_digit((v % 10) as int))
    }
}

/// The text that names a failure: the offending code in eight hexadecimal
/// digits for an unknown usage or algorithm, the tag in decimal for an unknown
/// format.
pub open spec fn error_text(e: Error) -> Seq<char> {
    match e {
        Error::Invalid(FormatError::Usage(c)) => "usage: "@ + hex_digits(c as nat, 8),
        Error::Invalid(FormatError::Algorithm(c)) => "algorithm: "@ + hex_digits(c as nat, 8),
        Error::Invalid(FormatError::Version(t)) => "version: "@ + decimal(t as nat),
        Error::Invalid(FormatError::KeyUsageAbsent) => "public key invalid usage"@,
        Error::Invalid(FormatError::KeyAlgorithmAbsent) => "public key invalid algorithm"@,
        Error::Truncated => "unexpected end of input"@,
    }
}

/// Relies on std's `format!` with `{:08X}` on a `u32`: exactly eight upper-case
/// hexadecimal digits, most significant first, padded with zeros.
#[verifier::external_body]
fn hex8(v: u32) -> (r: String)
    ensures
        r@ == hex_digits(v as nat, 8),
{
    format!("{:08X}", v)
}

/// Relies on std's `format!` with `{}` on a `u32`: its decimal digits, most
/// significant first, with no sign and no leading zero.
#[verifier::external_body]
fn decimal_text(v: u32) -> (r: String)
    ensures
        r@ == decimal(v as nat),
{
    format!("{}", v)
}

impl Error {
    /// Whether this is a structural violation rather than a short read.
    pub fn is_format(&self) -> (r: bool)
        ensures
            r == (*self is Invalid),
    {
        match self {
            Error::Invalid(_) => true,
            Error::Truncated => false,
        }
    }

    /// The text that names this failure.
    pub fn message(&self) -> (r: String)
        ensures
            r@ == error_text(*self),
    {
        match self {
            Error::Invalid(FormatError::Usage(c)) => {
                let h = hex8(*c);
                "usage: ".to_owned().concat(h.as_str())
            },
            Error::Invalid(FormatError::Algorithm(c)) => {
                let h = hex8(*c);
                "algorithm: ".to_owned().concat(h.as_str())
            },
            Error::Invalid(FormatError::Version(t)) => {
                let d = decimal_text(*t);
                "version: ".to_owned().concat(d.as_str())
            },
            Error::Invalid(FormatError::KeyUsageAbsent) => "public key invalid usage".to_owned(),
            Error::Invalid(FormatError::KeyAlgorithmAbsent) => {
                "public key invalid algorithm".to_owned()
            },
            Error::Truncated => "unexpected end of input".to_owned(),
        }
    }
}

} // verus!
