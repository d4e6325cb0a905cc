//! Hexadecimal text.
//!
//! Encoding and decoding are done by the `hex` crate. The specification
//! functions below say what its functions return.

use vstd::prelude::*;
use vstd::string::*;
use vstd::utf8::*;

use crate::primitives::text::{decimal, decimal_text};

verus! {

/// Why a text is not the hexadecimal encoding that was asked for.
#[derive(Clone, Copy, Debug, PartialEq, Eq, Structural)]
pub enum HexError {
    /// A byte of the text is not a hexadecimal digit.
    InvalidHexCharacter {
        /// The offending byte, as a character.
        c: char,
        /// Its position in the text, in bytes.
        index: usize,
    },
    /// The number of digits is odd.
    OddLength,
    /// The number of digits does not fit the expected number of bytes.
    InvalidStringLength,
}

/// The lowercase hexadecimal digit with the value `d`.
pub open spec fn hex_digit(d: int) -> char {
    if d < 10 {
        (48 + d) as char
    } else {
        (87 + d) as char
    }
}

/// The lowercase hexadecimal encoding of `bytes`: two digits per byte, the
/// high half first.
pub open spec fn hex_encode(bytes: Seq<u8>) -> Seq<char> {
    Seq::new(
        2 * bytes.len(),
        |i: int|
            hex_digit(
                if i % 2 == 0 {
                    bytes[i / 2] as int / 16
                } else {
                    bytes[i / 2] as int % 16
                },
            ),
    )
}

/// Whether `b` is the ASCII code of a hexadecimal digit of either case.
pub open spec fn is_hex_byte(b: u8) -> bool {
    48 <= b <= 57 || 65 <= b <= 70 || 97 <= b <= 102
}

/// The value of the hexadecimal digit with the ASCII code `b`.
pub open spec fn hex_value(b: u8) -> int {
    if b <= 57 {
        b - 48
    } else if b <= 70 {
        b - 55
    } else {
        b - 87
    }
}

/// Whether every byte of `text` is a hexadecimal digit.
pub open spec fn all_hex(text: Seq<u8>) -> bool {
    forall|i: int| 0 <= i < text.len() ==> is_hex_byte(#[trigger] text[i])
}

/// Whether `k` is the position of the first byte of `text` that is not a
/// hexadecimal digit.
pub open spec fn is_first_non_hex(text: Seq<u8>, k: int) -> bool {
    &&& 0 <= k < text.len()
    &&& !is_hex_byte(text[k])
    &&& forall|j: int| 0 <= j < k ==> is_hex_byte(#[trigger] text[j])
}

/// The bytes that the digits of `text` stand for, two digits per byte.
pub open spec fn hex_bytes(text: Seq<u8>) -> Seq<u8> {
    Seq::new(
        text.len() / 2,
        |i: int| (hex_value(text[2 * i]) * 16 + hex_value(text[2 * i + 1])) as u8,
    )
}

/// Whether decoding the digits of `text` gives `r`: the bytes if every byte is
/// a digit, else the first one that is not.
pub open spec fn digits_decode_to(text: Seq<u8>, r: Result<Seq<u8>, HexError>) -> bool {
    match r {
        Ok(bytes) => all_hex(text) && bytes == hex_bytes(text),
        Err(HexError::InvalidHexCharacter { c, index }) => {
            &&& is_first_non_hex(text, index as int)
            &&& c == text[index as int] as char
        },
        Err(_) => false,
    }
}

/// Whether decoding `text` into any number of bytes gives `r`.
pub open spec fn hex_decodes_to(text: Seq<u8>, r: Result<Seq<u8>, HexError>) -> bool {
    if text.len() % 2 != 0 {
        r == Err::<Seq<u8>, HexError>(HexError::OddLength)
    } else {
        digits_decode_to(text, r)
    }
}

/// Whether decoding `text` into exactly `n` bytes gives `r`.
pub open spec fn hex_decodes_exactly(text: Seq<u8>, n: nat, r: Result<Seq<u8>, HexError>) -> bool {
    if text.len() % 2 != 0 {
        r == Err::<Seq<u8>, HexError>(HexError::OddLength)
    } else if text.len() / 2 != n {
        r == Err::<Seq<u8>, HexError>(HexError::InvalidStringLength)
    } else {
        digits_decode_to(text, r)
    }
}

/// What decoding the digits of `text` gives.
pub open spec fn digits_decoded(text: Seq<u8>) -> Result<Seq<u8>, HexError> {
    if all_hex(text) {
        Ok(hex_bytes(text))
    } else {
        let k = choose|k: int| is_first_non_hex(text, k);
        Err(HexError::InvalidHexCharacter { c: text[k] as char, index: k as usize })
    }
}

/// What decoding the digits of `text` into any number of bytes gives.
pub open spec fn hex_decoded(text: Seq<char>) -> Result<Seq<u8>, HexError> {
    let bytes = encode_utf8(text);
    if bytes.len() % 2 != 0 {
        Err(HexError::OddLength)
    } else {
        digits_decoded(bytes)
    }
}

/// What decoding the digits of `text` into exactly thirty-two bytes gives.
pub open spec fn hex_decoded_32(text: Seq<char>) -> Result<Seq<u8>, HexError> {
    let bytes = encode_utf8(text);
    if bytes.len() % 2 != 0 {
        Err(HexError::OddLength)
    } else if bytes.len() / 2 != 32 {
        Err(HexError::InvalidStringLength)
    } else {
        digits_decoded(bytes)
    }
}

/// A text decodes to one result only.
pub proof fn lemma_decoding_is_unique(text: Seq<char>)
    ensures
        forall|r: Result<Seq<u8>, HexError>| #[trigger]
            hex_decodes_to(encode_utf8(text), r) ==> r == hex_decoded(text),
        forall|r: Result<Seq<u8>, HexError>| #[trigger]
            hex_decodes_exactly(encode_utf8(text), 32, r) ==> r == hex_decoded_32(text),
{
    let bytes = encode_utf8(text);
    assert forall|r: Result<Seq<u8>, HexError>| #[trigger] hex_decodes_to(bytes, r) implies r
        == hex_decoded(text) by {
        lemma_digits_decode_once(bytes, r);
    }
    assert forall|r: Result<Seq<u8>, HexError>| #[trigger]
        hex_decodes_exactly(bytes, 32, r) implies r == hex_decoded_32(text) by {
        lemma_digits_decode_once(bytes, r);
    }
}

proof fn lemma_digits_decode_once(text: Seq<u8>, r: Result<Seq<u8>, HexError>)
    ensures
        digits_decode_to(text, r) ==> r == digits_decoded(text),
{
    if digits_decode_to(text, r) && r is Err {
        let i = r->Err_0->index;
        assert(!is_hex_byte(text[i as int]));
        let k = choose|k: int| is_first_non_hex(text, k);
        assert(is_first_non_hex(text, i as int));
        assert(is_first_non_hex(text, k));
        assert(k == i);
    }
}

/// `hex::encode`: gives the lowercase hexadecimal encoding of the bytes.
#[verifier::external_body]
pub(crate) fn encode(bytes: &[u8]) -> (r: String)
    ensures
        r@ == hex_encode(bytes@),
{
    hex::encode(bytes)
}

/// `hex::decode`: decodes the UTF-8 bytes of the text, or names the first
/// byte that is not a digit; an odd number of bytes is refused first.
#[verifier::external_body]
pub(crate) fn decode(text: &str) -> (r: Result<Vec<u8>, HexError>)
    ensures
        hex_decodes_to(
            text.spec_bytes(),
            match r {
                Ok(v) => Ok(v@),
                Err(e) => Err(e),
            },
        ),
{
    hex::decode(text).map_err(
        |e|
            match e {
                hex::FromHexError::InvalidHexCharacter { c, index } => HexError::InvalidHexCharacter { c, index },
                hex::FromHexError::OddLength => HexError::OddLength,
                hex::FromHexError::InvalidStringLength => HexError::InvalidStringLength,
            },
    )
}

/// `hex::decode_to_slice` into thirty-two bytes: refuses an odd number of
/// digits, then a number of digits other than sixty-four, then the first byte
/// that is not a digit.
#[verifier::external_body]
pub(crate) fn decode_32(text: &str) -> (r: Result<[u8; 32], HexError>)
    ensures
        hex_decodes_exactly(
            text.spec_bytes(),
            32,
            match r {
                Ok(v) => Ok(v@),
                Err(e) => Err(e),
            },
        ),
{
    let mut out = [0u8; 32];
    match hex::decode_to_slice(text, &mut out) {
        Ok(()) => Ok(out),
        Err(hex::FromHexError::InvalidHexCharacter { c, index }) => Err(HexError::InvalidHexCharacter { c, index }),
        Err(hex::FromHexError::OddLength) => Err(HexError::OddLength),
        Err(hex::FromHexError::InvalidStringLength) => Err(HexError::InvalidStringLength),
    }
}

/// What the standard library's `Debug` writes for a character.
pub uninterp spec fn char_debug(c: char) -> Seq<char>;

/// `Debug` of `char`: a function of the character. Letters and digits are
/// written as they are, between single quotes; how other characters are
/// escaped is not stated.
#[verifier::external_body]
fn char_debug_text(c: char) -> (r: String)
    ensures
        r@ == char_debug(c),
        ('0' <= c <= '9' || 'A' <= c <= 'Z' || 'a' <= c <= 'z') ==> r@ == seq!['\'', c, '\''],
{
    format!("{:?}", c)
}

/// The message of a [`HexError`].
pub open spec fn hex_error_text(e: HexError) -> Seq<char> {
    match e {
        HexError::InvalidHexCharacter { c, index } => "Invalid character "@ + char_debug(c)
            + " at position "@ + decimal(index as nat),
        HexError::OddLength => "Odd number of digits"@,
        HexError::InvalidStringLength => "Invalid string length"@,
    }
}

impl HexError {
    /// The message of this error.
    pub fn to_string(&self) -> (r: String)
        ensures
            r@ == hex_error_text(*self),
    {
        match *self {
            HexError::InvalidHexCharacter { c, index } => {
                let mut out = "Invalid character ".to_owned();
                out.append(char_debug_text(c).as_str());
                out.append(" at position ");
                out.append(decimal_text(index as u64).as_str());
                out
            },
            HexError::OddLength => "Odd number of digits".to_owned(),
            HexError::InvalidStringLength => "Invalid string length".to_owned(),
        }
    }
}

proof fn lemma_digit_roundtrip(d: int)
    requires
        0 <= d < 16,
    ensures
        (hex_digit(d) as nat) < 128,
        is_hex_byte(hex_digit(d) as u8),
        hex_value(hex_digit(d) as u8) == d,
{
}

/// Decoding undoes encoding.
pub proof fn lemma_decode_encode(bytes: Seq<u8>)
    ensures
        all_hex(encode_utf8(hex_encode(bytes))),
        encode_utf8(hex_encode(bytes)).len() == 2 * bytes.len(),
        hex_bytes(encode_utf8(hex_encode(bytes))) == bytes,
        hex_decodes_to(encode_utf8(hex_encode(bytes)), Ok(bytes)),
        hex_decodes_exactly(encode_utf8(hex_encode(bytes)), bytes.len(), Ok(bytes)),
{
    let chars = hex_encode(bytes);
    assert forall|i: int| 0 <= i < chars.len() implies (#[trigger] chars[i] as nat) < 128 by {
        lemma_digit_roundtrip(bytes[i / 2] as int / 16);
        lemma_digit_roundtrip(bytes[i / 2] as int % 16);
    }
    assert(is_ascii_chars(chars));
    is_ascii_chars_encode_utf8(chars);
    let text = encode_utf8(chars);
    assert forall|i: int| 0 <= i < text.len() implies is_hex_byte(#[trigger] text[i]) by {
        assert(text[i] == chars[i] as u8);
        lemma_digit_roundtrip(bytes[i / 2] as int / 16);
        lemma_digit_roundtrip(bytes[i / 2] as int % 16);
    }
    assert forall|i: int| 0 <= i < bytes.len() implies hex_bytes(text)[i] == bytes[i] by {
        assert(text[2 * i] == chars[2 * i] as u8);
        assert(text[2 * i + 1] == chars[2 * i + 1] as u8);
        lemma_digit_roundtrip(bytes[i] as int / 16);
        lemma_digit_roundtrip(bytes[i] as int % 16);
    }
    assert(hex_bytes(text) =~= bytes);
}

} // verus!
