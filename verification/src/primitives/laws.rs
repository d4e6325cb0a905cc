//! What holds of the primitive types and of how they are written.

use vstd::prelude::*;
use vstd::string::*;

use crate::primitives::digest::{blake3_digest, law_hex_reads_back};
use crate::primitives::endian::{
    be_bytes, le_bytes, le_u64_at, lemma_bytes_len, lemma_le_roundtrip, lemma_pow256_values,
    to_be_bytes, to_le_bytes,
};
use crate::primitives::error::{DigestDecodeError, NexusPrimitivesError};
use crate::primitives::hexadecimal::{char_debug, hex_encode, HexError};
use crate::primitives::ids::{clock_gave, timestamp_from_millis};
use crate::primitives::lex::{lex_compare, lex_lt, lex_lt_at, Order};
use crate::primitives::table::KeyTable;
use crate::primitives::text::{
    bytes_eq, decimal_text, has_prefix, join, join3, signed_decimal_text, text_eq,
};
use crate::primitives::{
    AccountAddress, Amount, Blake3Digest, CommitSequence, ContractAddress, EpochNumber, RoundNumber,
    ShardId, TimestampMs, ValidatorIndex,
};

verus! {

/// A NXS is a thousand million of the smallest unit.
pub proof fn law_units_of_account(none: Amount, voo: Amount, nxs: Amount)
    requires
        call_ensures(Amount::zero, (), none),
        call_ensures(Amount::one_voo, (), voo),
        call_ensures(Amount::one_nxs, (), nxs),
    ensures
        none.0 == 0,
        voo.0 == 1,
        nxs.0 == 1_000_000_000 * voo.0,
{
}

/// An account is known by the digest of its key, and a contract by that of its
/// deployer and its code, each in a domain of its own.
pub proof fn law_addresses_are_digests(
    pubkey: &[u8],
    account: AccountAddress,
    deployer: AccountAddress,
    code: &[u8],
    contract: ContractAddress,
)
    requires
        call_ensures(AccountAddress::from_dilithium_pubkey, (pubkey,), account),
        call_ensures(ContractAddress::from_deployment, (&deployer, code), contract),
    ensures
        account.0@ == blake3_digest("nexus::account::address::v1".spec_bytes() + pubkey@),
        contract.0@ == blake3_digest(
            "nexus::contract::address::v1".spec_bytes() + deployer.0@ + code@,
        ),
{
}

/// Whether all 32 bytes are zero.
pub open spec fn all_zero(bytes: Seq<u8>) -> bool {
    bytes.len() == 32 && forall|i: int| 0 <= i < 32 ==> #[trigger] bytes[i] == 0
}

/// The zero values are zero in every byte.
pub proof fn law_zeros_are_zero(
    account: AccountAddress,
    contract: ContractAddress,
    digest: Blake3Digest,
)
    requires
        call_ensures(AccountAddress::zero, (), account),
        call_ensures(ContractAddress::zero, (), contract),
        call_ensures(Blake3Digest::zero, (), digest),
    ensures
        all_zero(account.0@),
        all_zero(contract.0@),
        all_zero(digest.0@),
{
}

/// An account is read back from its hexadecimal text, and written with a prefix
/// in front of that.
pub proof fn law_accounts_are_read_back(
    account: AccountAddress,
    hex: String,
    shown: String,
    text: &str,
    r: Result<AccountAddress, DigestDecodeError>,
    bytes: &[u8],
)
    requires
        call_ensures(AccountAddress::to_hex, (&account,), hex),
        call_ensures(AccountAddress::to_string, (&account,), shown),
        text@ == hex@,
        call_ensures(AccountAddress::from_hex, (text,), r),
        call_ensures(AccountAddress::as_ref, (&account,), bytes),
    ensures
        hex@ == hex_encode(account.0@),
        shown@ == "0x"@ + hex@,
        r is Ok,
        r->Ok_0.0@ == account.0@,
        bytes@ == account.0@,
{
    law_hex_reads_back(account@, text);
}

/// A contract is read back from its hexadecimal text, and written with a prefix
/// in front of that.
pub proof fn law_contracts_are_read_back(
    contract: ContractAddress,
    hex: String,
    shown: String,
    text: &str,
    r: Result<ContractAddress, DigestDecodeError>,
    bytes: &[u8],
)
    requires
        call_ensures(ContractAddress::to_hex, (&contract,), hex),
        call_ensures(ContractAddress::to_string, (&contract,), shown),
        text@ == hex@,
        call_ensures(ContractAddress::from_hex, (text,), r),
        call_ensures(ContractAddress::as_ref, (&contract,), bytes),
    ensures
        hex@ == hex_encode(contract.0@),
        shown@ == "0x"@ + hex@,
        r is Ok,
        r->Ok_0.0@ == contract.0@,
        bytes@ == contract.0@,
{
    law_hex_reads_back(contract@, text);
}

/// A digest is read back from its hexadecimal text, which is also how it is
/// written.
pub proof fn law_digests_are_read_back(
    digest: Blake3Digest,
    hex: String,
    shown: String,
    text: &str,
    r: Result<Blake3Digest, DigestDecodeError>,
    bytes: &[u8],
)
    requires
        call_ensures(Blake3Digest::to_hex, (&digest,), hex),
        call_ensures(Blake3Digest::to_string, (&digest,), shown),
        text@ == hex@,
        call_ensures(Blake3Digest::from_hex, (text,), r),
        call_ensures(Blake3Digest::as_ref, (&digest,), bytes),
    ensures
        hex@ == hex_encode(digest.0@),
        shown@ == hex@,
        r is Ok,
        r->Ok_0.0@ == digest.0@,
        bytes@ == digest.0@,
{
    law_hex_reads_back(digest@, text);
}

/// A digest is made of 32 bytes and gives them back, and is not made of fewer
/// or more.
pub proof fn law_digests_have_32_bytes(
    array: [u8; 32],
    made: Blake3Digest,
    given: &[u8; 32],
    bytes: &[u8],
    r: Result<Blake3Digest, DigestDecodeError>,
)
    requires
        call_ensures(Blake3Digest::from_bytes, (array,), made),
        call_ensures(Blake3Digest::as_bytes, (&made,), given),
        call_ensures(Blake3Digest::try_from, (bytes,), r),
    ensures
        *given == array,
        r is Ok <==> bytes@.len() == 32,
        r is Ok ==> r->Ok_0.0@ == bytes@,
        r is Err ==> r->Err_0 is WrongLength && r->Err_0->expected == 32 && (bytes@.len()
            <= usize::MAX ==> r->Err_0->got == bytes@.len()),
{
}

/// For a programmer a value is named, with its first and its last eight digits.
pub proof fn law_debug_texts_are_abbreviated(
    account: AccountAddress,
    contract: ContractAddress,
    digest: Blake3Digest,
    a: String,
    c: String,
    d: String,
)
    requires
        call_ensures(AccountAddress::to_debug_string, (&account,), a),
        call_ensures(ContractAddress::to_debug_string, (&contract,), c),
        call_ensures(Blake3Digest::to_debug_string, (&digest,), d),
    ensures
        a@ == "AccountAddress"@ + "("@ + hex_encode(account.0@).take(8) + "\u{2026}"@ + hex_encode(
            account.0@,
        ).skip(56) + ")"@,
        c@ == "ContractAddress"@ + "("@ + hex_encode(contract.0@).take(8) + "\u{2026}"@
            + hex_encode(contract.0@).skip(56) + ")"@,
        d@ == "Blake3Digest"@ + "("@ + hex_encode(digest.0@).take(8) + "\u{2026}"@ + hex_encode(
            digest.0@,
        ).skip(56) + ")"@,
{
    assert(hex_encode(account.0@).take(8) =~= hex_encode(account.0@).subrange(0, 8));
    assert(hex_encode(account.0@).skip(56) =~= hex_encode(account.0@).subrange(56, 64));
    assert(hex_encode(contract.0@).take(8) =~= hex_encode(contract.0@).subrange(0, 8));
    assert(hex_encode(contract.0@).skip(56) =~= hex_encode(contract.0@).subrange(56, 64));
    assert(hex_encode(digest.0@).take(8) =~= hex_encode(digest.0@).subrange(0, 8));
    assert(hex_encode(digest.0@).skip(56) =~= hex_encode(digest.0@).subrange(56, 64));
}

/// What is wrong with a digest is said in words.
pub proof fn law_digest_errors_are_told(
    expected: usize,
    got: usize,
    reason: String,
    expected_text: String,
    got_text: String,
    length: String,
    hex: String,
    whole: NexusPrimitivesError,
    shown: String,
)
    requires
        call_ensures(decimal_text, (expected as u64,), expected_text),
        call_ensures(decimal_text, (got as u64,), got_text),
        call_ensures(
            DigestDecodeError::to_string,
            (&DigestDecodeError::WrongLength { expected, got },),
            length,
        ),
        call_ensures(DigestDecodeError::to_string, (&DigestDecodeError::InvalidHex { reason },), hex),
        call_ensures(
            <NexusPrimitivesError as From<DigestDecodeError>>::from,
            (DigestDecodeError::InvalidHex { reason },),
            whole,
        ),
        call_ensures(NexusPrimitivesError::to_string, (&whole,), shown),
    ensures
        length@ == "expected "@ + expected_text@ + " bytes, got "@ + got_text@,
        hex@ == "invalid hex string: "@ + reason@,
        shown@ == hex@,
{
}

/// What is wrong with hexadecimal text is said in words.
pub proof fn law_hex_errors_are_told(
    odd: String,
    length: String,
    c: char,
    index: usize,
    index_text: String,
    digit: String,
)
    requires
        call_ensures(decimal_text, (index as u64,), index_text),
        call_ensures(HexError::to_string, (&HexError::InvalidHexCharacter { c, index },), digit),
        call_ensures(HexError::to_string, (&HexError::OddLength,), odd),
        call_ensures(HexError::to_string, (&HexError::InvalidStringLength,), length),
    ensures
        digit@ == "Invalid character "@ + char_debug(c) + " at position "@ + index_text@,
        odd@ == "Odd number of digits"@,
        length@ == "Invalid string length"@,
{
}

/// The bytes of a number are its lowest one and those of the rest, at the front
/// or at the end.
pub proof fn law_bytes_of_numbers(
    n: u128,
    k: u8,
    little: Vec<u8>,
    rest: Vec<u8>,
    none: Vec<u8>,
    m: u64,
    big: Vec<u8>,
    big_rest: Vec<u8>,
)
    requires
        k < 255,
        call_ensures(to_le_bytes, (n, (k + 1) as u8), little),
        call_ensures(to_le_bytes, ((n / 256) as u128, k), rest),
        call_ensures(to_le_bytes, (n, 0), none),
        call_ensures(to_be_bytes, (m, (k + 1) as u8), big),
        call_ensures(to_be_bytes, ((m / 256) as u64, k), big_rest),
    ensures
        none@.len() == 0,
        little@.len() == k + 1,
        little@[0] == n % 256,
        little@.drop_first() == rest@,
        big@.len() == k + 1,
        big@.last() == m % 256,
        big@.drop_last() == big_rest@,
{
    lemma_bytes_len(n as nat, (k + 1) as nat);
    lemma_bytes_len(m as nat, (k + 1) as nat);
    assert(le_bytes(n as nat, (k + 1) as nat) == seq![((n as nat) % 256) as u8] + le_bytes(
        (n as nat) / 256,
        k as nat,
    ));
    assert(be_bytes(m as nat, (k + 1) as nat) == be_bytes((m as nat) / 256, k as nat).push(
        ((m as nat) % 256) as u8,
    ));
    assert(little@.drop_first() =~= rest@);
    assert(big@.drop_last() =~= big_rest@);
}

/// A number is read back from its eight bytes, wherever they stand.
pub proof fn law_numbers_are_read_back(n: u64, bytes: Vec<u8>, data: &[u8], at: usize, r: u64)
    requires
        call_ensures(to_le_bytes, (n as u128, 8), bytes),
        at + 8 <= data@.len(),
        data@.subrange(at as int, at + 8) == bytes@,
        call_ensures(le_u64_at, (data, at), r),
    ensures
        r == n,
{
    lemma_pow256_values();
    lemma_le_roundtrip(n as nat, 8);
}

/// A number is written as the digits of its tenth part and its last digit, and
/// a digit as itself.
pub proof fn law_numbers_are_written_in_decimal(n: u64, text: String, tenth: String)
    requires
        call_ensures(decimal_text, (n,), text),
        call_ensures(decimal_text, ((n / 10) as u64,), tenth),
    ensures
        text@.len() > 0,
        text@.last() as int == '0' as int + n % 10,
        n < 10 ==> text@.len() == 1,
        n >= 10 ==> text@.drop_last() == tenth@,
{
    if n >= 10 {
        assert(text@.drop_last() =~= tenth@);
    }
}

/// A negative number is written with a minus in front.
pub proof fn law_signed_numbers_are_written(n: i32, text: String, size: String)
    requires
        call_ensures(signed_decimal_text, (n,), text),
        call_ensures(decimal_text, ((if n < 0 { -n } else { n as int }) as u64,), size),
    ensures
        n >= 0 ==> text@ == size@,
        n < 0 ==> text@ == "-"@ + size@,
{
}

/// Identifiers are written as their numbers.
pub proof fn law_identifiers_are_written_as_numbers(
    validator: ValidatorIndex,
    epoch: EpochNumber,
    round: RoundNumber,
    shard: ShardId,
    sequence: CommitSequence,
    time: TimestampMs,
    texts: Seq<String>,
    numbers: Seq<String>,
)
    requires
        texts.len() == 6,
        numbers.len() == 6,
        call_ensures(ValidatorIndex::to_string, (&validator,), texts[0]),
        call_ensures(EpochNumber::to_string, (&epoch,), texts[1]),
        call_ensures(RoundNumber::to_string, (&round,), texts[2]),
        call_ensures(ShardId::to_string, (&shard,), texts[3]),
        call_ensures(CommitSequence::to_string, (&sequence,), texts[4]),
        call_ensures(TimestampMs::to_string, (&time,), texts[5]),
        call_ensures(decimal_text, (validator.0 as u64,), numbers[0]),
        call_ensures(decimal_text, (epoch.0,), numbers[1]),
        call_ensures(decimal_text, (round.0,), numbers[2]),
        call_ensures(decimal_text, (shard.0 as u64,), numbers[3]),
        call_ensures(decimal_text, (sequence.0,), numbers[4]),
        call_ensures(decimal_text, (time.0,), numbers[5]),
    ensures
        forall|i: int| 0 <= i < 6 ==> (#[trigger] texts[i])@ == numbers[i]@,
{
    assert forall|i: int| 0 <= i < 6 implies (#[trigger] texts[i])@ == numbers[i]@ by {
        assert(i == 0 || i == 1 || i == 2 || i == 3 || i == 4 || i == 5);
    }
}

/// A time is the clock's, as far as it can be told, and zero without one.
pub proof fn law_times_are_the_clocks(millis: u128, r: TimestampMs, now: TimestampMs)
    requires
        call_ensures(timestamp_from_millis, (millis,), r),
        call_ensures(TimestampMs::now, (), now),
    ensures
        millis <= u64::MAX ==> r.0 == millis,
        millis > u64::MAX ==> r.0 == u64::MAX,
        exists|reading: Option<u128>| #[trigger]
            clock_gave(reading) && (reading is None ==> now.0 == 0) && (reading is Some
                && reading->Some_0 <= u64::MAX ==> now.0 == reading->Some_0) && (reading is Some
                && reading->Some_0 > u64::MAX ==> now.0 == u64::MAX),
{
}

/// Texts are joined one behind the other, and compared character by character.
pub proof fn law_texts_are_joined_and_compared(
    a: &str,
    b: &str,
    c: &str,
    two: String,
    three: String,
    equal: bool,
    begins: bool,
)
    requires
        call_ensures(join, (a, b), two),
        call_ensures(join3, (a, b, c), three),
        call_ensures(text_eq, (a, b), equal),
        call_ensures(has_prefix, (a, b), begins),
    ensures
        two@ == a@ + b@,
        three@ == two@ + c@,
        equal <==> a@ == b@,
        begins <==> exists|rest: Seq<char>| a@ == #[trigger] (b@ + rest),
{
    if begins {
        assert(a@ =~= b@ + a@.skip(b@.len() as int));
    }
    if exists|rest: Seq<char>| a@ == #[trigger] (b@ + rest) {
        let rest = choose|rest: Seq<char>| a@ == #[trigger] (b@ + rest);
        assert(b@ =~= a@.subrange(0, b@.len() as int));
    }
}

/// Whether one text of bytes comes before another in a dictionary: they agree
/// up to a place where the first ends or has the smaller byte.
pub open spec fn comes_before(a: Seq<u8>, b: Seq<u8>) -> bool {
    exists|k: int|
        {
            &&& 0 <= k < b.len()
            &&& k <= a.len()
            &&& #[trigger] a.take(k) == b.take(k)
            &&& k == a.len() || a[k] < b[k]
        }
}

proof fn lemma_comes_before(a: Seq<u8>, b: Seq<u8>)
    ensures
        comes_before(a, b) <==> lex_lt(a, b),
{
    if lex_lt(a, b) {
        let k = choose|k: int| lex_lt_at(a, b, k);
        assert(a.take(k) =~= b.take(k));
    }
    if comes_before(a, b) {
        let k = choose|k: int|
            {
                &&& 0 <= k < b.len()
                &&& k <= a.len()
                &&& #[trigger] a.take(k) == b.take(k)
                &&& k == a.len() || a[k] < b[k]
            };
        assert forall|j: int| 0 <= j < k implies a[j] == b[j] by {
            assert(a.take(k)[j] == b.take(k)[j]);
        }
        assert(lex_lt_at(a, b, k));
    }
}

/// Bytes are ordered as in a dictionary, and equal where each byte is.
pub proof fn law_bytes_are_ordered_as_in_a_dictionary(a: &[u8], b: &[u8], r: Order, equal: bool)
    requires
        call_ensures(lex_compare, (a, b), r),
        call_ensures(bytes_eq, (a, b), equal),
    ensures
        r is Less <==> comes_before(a@, b@),
        r is Equal <==> a@ == b@,
        r is Greater <==> comes_before(b@, a@),
        equal <==> a@ == b@,
{
    lemma_comes_before(a@, b@);
    lemma_comes_before(b@, a@);
}

/// What was stored under a key is found there, what was removed is not, and
/// what is stored under other keys stays.
pub proof fn law_tables_hold_what_was_stored<V>(
    table: &mut KeyTable<V>,
    key: [u8; 32],
    value: V,
    other: [u8; 32],
    before: Option<&V>,
    found: Option<&V>,
    kept: Option<&V>,
    later: &mut KeyTable<V>,
    removed: Option<V>,
    gone: Option<&V>,
    still: Option<&V>,
)
    requires
        key@ != other@,
        call_ensures(KeyTable::<V>::get, (&*old(table), &other), before),
        call_ensures(KeyTable::<V>::insert, (table, &key, value), ()),
        call_ensures(KeyTable::<V>::get, (&*final(table), &key), found),
        call_ensures(KeyTable::<V>::get, (&*final(table), &other), kept),
        *old(later) == *final(table),
        call_ensures(KeyTable::<V>::remove, (later, &key), removed),
        call_ensures(KeyTable::<V>::get, (&*final(later), &key), gone),
        call_ensures(KeyTable::<V>::get, (&*final(later), &other), still),
    ensures
        found == Some(&value),
        kept == before,
        removed == Some(value),
        gone is None,
        still == before,
{
}

/// A new table is empty, and what is appended behind all keys is found.
pub proof fn law_tables_grow_at_the_end<V>(
    empty: KeyTable<V>,
    n: usize,
    key: [u8; 32],
    nothing: Option<&V>,
    table: &mut KeyTable<V>,
    value: V,
    found: Option<&V>,
    last: [u8; 32],
    last_value: &V,
    i: usize,
    at: Option<&V>,
)
    requires
        call_ensures(KeyTable::<V>::new, (), empty),
        call_ensures(KeyTable::<V>::len, (&empty,), n),
        call_ensures(KeyTable::<V>::get, (&empty, &key), nothing),
        call_ensures(KeyTable::<V>::push_last, (table, &key, value), ()),
        call_ensures(KeyTable::<V>::get, (&*final(table), &key), found),
        call_ensures(KeyTable::<V>::key_at, (&*final(table), i), last),
        call_ensures(KeyTable::<V>::value_at, (&*final(table), i), last_value),
        call_ensures(KeyTable::<V>::get, (&*final(table), &last), at),
    ensures
        n == 0,
        nothing is None,
        found == Some(&value),
        at == Some(last_value),
{
}

} // verus!
