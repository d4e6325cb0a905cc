//! Errors of the primitive types.

use vstd::prelude::*;
use vstd::string::*;

use crate::primitives::text::{decimal, decimal_text, join};

verus! {

/// Any error of the primitive types.
#[derive(Debug)]
pub enum NexusPrimitivesError {
    /// A cryptographic digest could not be decoded.
    DigestDecode(DigestDecodeError),
}

/// A digest or an address could not be decoded.
#[derive(Debug, PartialEq, Eq, Clone)]
pub enum DigestDecodeError {
    /// The number of bytes is not the expected one.
    WrongLength {
        /// Number of bytes expected.
        expected: usize,
        /// Number of bytes provided.
        got: usize,
    },
    /// The hexadecimal text is malformed.
    InvalidHex {
        /// What was wrong with it.
        reason: String,
    },
}

impl DigestDecodeError {
    /// The message of this error.
    pub open spec fn message(&self) -> Seq<char> {
        match self {
            DigestDecodeError::WrongLength { expected, got } => "expected "@ + decimal(
                *expected as nat,
            ) + " bytes, got "@ + decimal(*got as nat),
            DigestDecodeError::InvalidHex { reason } => "invalid hex string: "@ + reason@,
        }
    }

    /// The message of this error.
    pub fn to_string(&self) -> (r: String)
        ensures
            r@ == self.message(),
    {
        match self {
            DigestDecodeError::WrongLength { expected, got } => {
                let mut out = "expected ".to_owned();
                out.append(decimal_text(*expected as u64).as_str());
                out.append(" bytes, got ");
                out.append(decimal_text(*got as u64).as_str());
                out
            },
            DigestDecodeError::InvalidHex { reason } => join("invalid hex string: ", reason.as_str()),
        }
    }
}

impl NexusPrimitivesError {
    /// The message of the wrapped error.
    pub fn to_string(&self) -> (r: String)
        ensures
            r@ == (match self {
                NexusPrimitivesError::DigestDecode(e) => e.message(),
            }),
    {
        match self {
            NexusPrimitivesError::DigestDecode(e) => e.to_string(),
        }
    }
}

impl From<DigestDecodeError> for NexusPrimitivesError {
    fn from(e: DigestDecodeError) -> (r: Self) {
        NexusPrimitivesError::DigestDecode(e)
    }
}

impl vstd::std_specs::convert::FromSpecImpl<DigestDecodeError> for NexusPrimitivesError {
    open spec fn obeys_from_spec() -> bool {
        true
    }

    open spec fn from_spec(e: DigestDecodeError) -> Self {
        NexusPrimitivesError::DigestDecode(e)
    }
}

} // verus!
