//! The 32-byte BLAKE3 digest and its aliases.

use vstd::prelude::*;
use vstd::string::*;

use crate::primitives::error::DigestDecodeError;
use crate::primitives::hexadecimal::{
    decode_32, encode, hex_decodes_exactly, hex_encode, hex_error_text, lemma_decode_encode, HexError,
};
use crate::primitives::text::join;

verus! {

/// What BLAKE3 computes of a byte string, with the default output length.
pub uninterp spec fn blake3_digest(input: Seq<u8>) -> Seq<u8>;

/// `blake3::hash`: the 32-byte BLAKE3 hash, a function of the input alone.
#[verifier::external_body]
pub(crate) fn blake3_hash(input: &[u8]) -> (r: [u8; 32])
    ensures
        r@ == blake3_digest(input@),
{
    *blake3::hash(input).as_bytes()
}

/// Thirty-two zero bytes.
pub open spec fn zero_bytes() -> Seq<u8> {
    Seq::new(32, |i: int| 0u8)
}

/// A 32-byte BLAKE3 digest.
#[derive(Clone, Copy, Debug, PartialEq, Eq, Hash, PartialOrd, Ord)]
pub struct Blake3Digest(pub [u8; 32]);

/// Digest of a transaction batch.
pub type BatchDigest = Blake3Digest;

/// Digest of a certificate.
pub type CertDigest = Blake3Digest;

/// Digest of a block.
pub type BlockDigest = Blake3Digest;

/// Root of the state commitment.
pub type StateRoot = Blake3Digest;

/// Digest of a transaction.
pub type TxDigest = Blake3Digest;

/// Identifier of an intent.
pub type IntentId = Blake3Digest;

impl View for Blake3Digest {
    type V = Seq<u8>;

    open spec fn view(&self) -> Seq<u8> {
        self.0@
    }
}

/// The first eight and the last eight hexadecimal digits of `bytes`, with an
/// ellipsis between them and `name` around them.
pub open spec fn abbreviated(name: Seq<char>, bytes: Seq<u8>) -> Seq<char> {
    let digits = hex_encode(bytes);
    name + "("@ + digits.subrange(0, 8) + "\u{2026}"@ + digits.subrange(
        digits.len() - 8,
        digits.len() as int,
    ) + ")"@
}

/// Writes thirty-two bytes in abbreviated hexadecimal form.
pub(crate) fn abbreviate(name: &str, bytes: &[u8; 32]) -> (r: String)
    ensures
        r@ == abbreviated(name@, bytes@),
{
    let digits = encode(bytes.as_slice());
    let mut out = join(name, "(");
    out.append(digits.as_str().substring_char(0, 8));
    out.append("\u{2026}");
    out.append(digits.as_str().substring_char(56, 64));
    out.append(")");
    out
}

/// Whether decoding `text` as thirty-two hexadecimal bytes gives `r`, where an
/// error carries the message of the hexadecimal decoder.
pub open spec fn parses_to(text: &str, r: Result<Seq<u8>, DigestDecodeError>) -> bool {
    match r {
        Ok(bytes) => hex_decodes_exactly(text.spec_bytes(), 32, Ok(bytes)),
        Err(e) => exists|h: HexError|
            {
                &&& #[trigger] hex_decodes_exactly(text.spec_bytes(), 32, Err(h))
                &&& e is InvalidHex
                &&& e->reason@ == hex_error_text(h)
            },
    }
}

/// Decodes thirty-two bytes from hexadecimal text.
pub(crate) fn parse_32(text: &str) -> (r: Result<[u8; 32], DigestDecodeError>)
    ensures
        parses_to(
            text,
            match r {
                Ok(v) => Ok(v@),
                Err(e) => Err(e),
            },
        ),
{
    match decode_32(text) {
        Ok(bytes) => Ok(bytes),
        Err(e) => {
            assert(hex_decodes_exactly(text.spec_bytes(), 32, Err(e)));
            Err(DigestDecodeError::InvalidHex { reason: e.to_string() })
        },
    }
}

/// A copy of the first thirty-two bytes of `bytes`.
pub(crate) fn copy_32(bytes: &[u8]) -> (r: [u8; 32])
    requires
        bytes@.len() >= 32,
    ensures
        r@ == bytes@.subrange(0, 32),
{
    let mut out: [u8; 32] = [0u8; 32];
    let mut i: usize = 0;
    while i < 32
        invariant
            0 <= i <= 32,
            bytes@.len() >= 32,
            out@.len() == 32,
            forall|j: int| 0 <= j < i ==> out@[j] == bytes@[j],
        decreases 32 - i,
    {
        out[i] = bytes[i];
        i = i + 1;
    }
    assert(out@ =~= bytes@.subrange(0, 32));
    out
}

impl Blake3Digest {
    /// The digest whose bytes are all zero.
    pub fn zero() -> (r: Blake3Digest)
        ensures
            r@ == zero_bytes(),
    {
        Blake3Digest([0u8; 32])
    }

    /// Number of bytes in a digest.
    pub const BYTE_LEN: usize = 32;

    /// Wraps raw bytes.
    pub fn from_bytes(bytes: [u8; 32]) -> (r: Self)
        ensures
            r.0 == bytes,
    {
        Blake3Digest(bytes)
    }

    /// The raw bytes.
    pub fn as_bytes(&self) -> (r: &[u8; 32])
        ensures
            *r == self.0,
    {
        &self.0
    }

    /// The digest in lowercase hexadecimal.
    pub fn to_hex(&self) -> (r: String)
        ensures
            r@ == hex_encode(self@),
    {
        encode(self.0.as_slice())
    }

    /// Decodes a digest from sixty-four hexadecimal digits of either case.
    pub fn from_hex(text: &str) -> (r: Result<Self, DigestDecodeError>)
        ensures
            parses_to(
                text,
                match r {
                    Ok(v) => Ok(v@),
                    Err(e) => Err(e),
                },
            ),
    {
        match parse_32(text) {
            Ok(bytes) => Ok(Blake3Digest(bytes)),
            Err(e) => Err(e),
        }
    }

    /// Takes a digest from a slice of exactly thirty-two bytes.
    pub fn try_from(bytes: &[u8]) -> (r: Result<Self, DigestDecodeError>)
        ensures
            bytes@.len() == 32 ==> r is Ok && r->Ok_0@ == bytes@,
            bytes@.len() != 32 ==> r == Err::<Self, DigestDecodeError>(
                DigestDecodeError::WrongLength { expected: 32, got: bytes@.len() as usize },
            ),
    {
        if bytes.len() != 32 {
            return Err(DigestDecodeError::WrongLength { expected: 32, got: bytes.len() });
        }
        assert(bytes@.subrange(0, 32) =~= bytes@);
        Ok(Blake3Digest(copy_32(bytes)))
    }

    /// The raw bytes as a slice.
    pub fn as_ref(&self) -> (r: &[u8])
        ensures
            r@ == self@,
    {
        self.0.as_slice()
    }

    /// The digest in full, in hexadecimal.
    pub fn to_string(&self) -> (r: String)
        ensures
            r@ == hex_encode(self@),
    {
        self.to_hex()
    }

    /// The digest in abbreviated form, for logs.
    pub fn to_debug_string(&self) -> (r: String)
        ensures
            r@ == abbreviated("Blake3Digest"@, self@),
    {
        abbreviate("Blake3Digest", &self.0)
    }
}

/// Decoding the hexadecimal form of thirty-two bytes gives those bytes back,
/// whatever text holds that form.
pub proof fn law_hex_reads_back(bytes: Seq<u8>, text: &str)
    requires
        bytes.len() == 32,
        text@ == hex_encode(bytes),
    ensures
        parses_to(text, Ok(bytes)),
        forall|r: Result<Seq<u8>, DigestDecodeError>| parses_to(text, r) ==> r == Ok::<
            Seq<u8>,
            DigestDecodeError,
        >(bytes),
{
    lemma_decode_encode(bytes);
}

} // verus!
