//! The byte layouts that BCS gives to the records of the node.
//!
//! Integers are little-endian, a list is preceded by its length in ULEB128,
//! and the parts of a record follow each other without padding. Every value
//! has exactly one encoding.

use vstd::prelude::*;

use crate::node::consensus_types::CommittedBatch;
use crate::primitives::endian::{
    le_bytes, le_value, lemma_bytes_len, lemma_le_roundtrip, lemma_pow256_values,
};
use crate::primitives::{Blake3Digest, CommitSequence, TimestampMs};

verus! {

/// The longest list that BCS encodes.
pub const MAX_SEQUENCE_LENGTH: usize = 2_147_483_647;

/// ULEB128: seven bits per byte, the lowest first, with the top bit set on all
/// but the last byte.
pub open spec fn uleb(n: nat) -> Seq<u8>
    decreases n,
{
    if n < 128 {
        seq![n as u8]
    } else {
        seq![(n % 128 + 128) as u8] + uleb(n / 128)
    }
}

/// The digests one after another.
pub open spec fn digests_layout(digests: Seq<Blake3Digest>) -> Seq<u8>
    decreases digests.len(),
{
    if digests.len() == 0 {
        Seq::empty()
    } else {
        digests_layout(digests.drop_last()) + digests.last()@
    }
}

/// Layout of a committed block.
pub open spec fn block_layout(b: CommittedBatch) -> Seq<u8> {
    b.anchor@ + (uleb(b.certificates@.len()) + (digests_layout(b.certificates@) + (le_bytes(
        b.sequence.0 as nat,
        8,
    ) + le_bytes(b.committed_at.0 as nat, 8))))
}

/// Whether a committed block is short enough to be encoded.
pub open spec fn block_fits(b: CommittedBatch) -> bool {
    b.certificates@.len() <= MAX_SEQUENCE_LENGTH
}

/// The blocks one after another.
pub open spec fn blocks_layout(blocks: Seq<CommittedBatch>) -> Seq<u8>
    decreases blocks.len(),
{
    if blocks.len() == 0 {
        Seq::empty()
    } else {
        block_layout(blocks[0]) + blocks_layout(blocks.drop_first())
    }
}

/// Layout of a block request behind a variant number.
pub open spec fn request_layout(variant: u8, from_seq: u64, count: u64, requester: Seq<u8>) -> Seq<u8> {
    seq![variant] + (le_bytes(from_seq as nat, 8) + (le_bytes(count as nat, 8) + requester))
}

/// Layout of a list of blocks behind a variant number.
pub open spec fn response_layout(variant: u8, blocks: Seq<CommittedBatch>) -> Seq<u8> {
    seq![variant] + (uleb(blocks.len()) + blocks_layout(blocks))
}

/// Whether a list of blocks is short enough to be encoded.
pub open spec fn blocks_fit(blocks: Seq<CommittedBatch>) -> bool {
    &&& blocks.len() <= MAX_SEQUENCE_LENGTH
    &&& forall|i: int| 0 <= i < blocks.len() ==> block_fits(#[trigger] blocks[i])
}

/// Layout of a stored validator identity.
pub open spec fn identity_layout(key: Seq<u8>, epoch: u64) -> Seq<u8> {
    uleb(key.len()) + (key + le_bytes(epoch as nat, 8))
}

/// `bcs::to_bytes` of a committed block, as the tuple of its parts: fails only
/// on a list that is too long.
#[verifier::external_body]
pub(crate) fn encode_block(block: &CommittedBatch) -> (r: Option<Vec<u8>>)
    ensures
        r is Some <==> block_fits(*block),
        r is Some ==> r->Some_0@ == block_layout(*block),
{
    let certificates: Vec<[u8; 32]> = block.certificates.iter().map(|d| d.0).collect();
    bcs::to_bytes(&(block.anchor.0, certificates, block.sequence.0, block.committed_at.0)).ok()
}

/// `bcs::from_bytes` of a committed block, as the tuple of its parts: succeeds
/// exactly on the encoding of some block, which it gives back.
#[verifier::external_body]
pub(crate) fn decode_block(data: &[u8]) -> (r: Option<CommittedBatch>)
    ensures
        r is Some ==> block_fits(r->Some_0) && block_layout(r->Some_0) == data@,
        r is None ==> forall|b: CommittedBatch| block_fits(b) ==> #[trigger] block_layout(b) != data@,
{
    let (anchor, certificates, sequence, committed_at): ([u8; 32], Vec<[u8; 32]>, u64, u64) =
        bcs::from_bytes(data).ok()?;
    Some(CommittedBatch {
        anchor: Blake3Digest(anchor),
        certificates: certificates.into_iter().map(Blake3Digest).collect(),
        sequence: CommitSequence(sequence),
        committed_at: TimestampMs(committed_at),
    })
}

/// `bcs::to_bytes` of a block request, as the tuple of a variant number and
/// its parts. It holds no list, so it does not fail.
#[verifier::external_body]
pub(crate) fn encode_request(variant: u8, from_seq: u64, count: u64, requester: &[u8; 32]) -> (r: Option<
    Vec<u8>,
>)
    ensures
        r is Some,
        r->Some_0@ == request_layout(variant, from_seq, count, requester@),
{
    bcs::to_bytes(&(variant, from_seq, count, *requester)).ok()
}

/// `bcs::from_bytes` of a block request, as the tuple of a variant number and
/// its parts: succeeds exactly on the encoding of such a tuple.
#[verifier::external_body]
pub(crate) fn decode_request(data: &[u8]) -> (r: Option<(u8, u64, u64, [u8; 32])>)
    ensures
        r is Some ==> ({
            let (variant, from_seq, count, requester) = r->Some_0;
            request_layout(variant, from_seq, count, requester@) == data@
        }),
        r is None ==> forall|variant: u8, from_seq: u64, count: u64, requester: Seq<u8>|
            requester.len() == 32 ==> #[trigger] request_layout(variant, from_seq, count, requester)
                != data@,
{
    bcs::from_bytes(data).ok()
}

/// `bcs::to_bytes` of a list of blocks behind a variant number: fails only on
/// a list that is too long.
#[verifier::external_body]
pub(crate) fn encode_response(variant: u8, blocks: &Vec<CommittedBatch>) -> (r: Option<Vec<u8>>)
    ensures
        r is Some <==> blocks_fit(blocks@),
        r is Some ==> r->Some_0@ == response_layout(variant, blocks@),
{
    let parts: Vec<([u8; 32], Vec<[u8; 32]>, u64, u64)> = blocks
        .iter()
        .map(|b| (b.anchor.0, b.certificates.iter().map(|d| d.0).collect(), b.sequence.0, b.committed_at.0))
        .collect();
    bcs::to_bytes(&(variant, parts)).ok()
}

/// `bcs::from_bytes` of a list of blocks behind a variant number: succeeds
/// exactly on the encoding of such a list.
#[verifier::external_body]
pub(crate) fn decode_response(data: &[u8]) -> (r: Option<(u8, Vec<CommittedBatch>)>)
    ensures
        r is Some ==> blocks_fit(r->Some_0.1@) && response_layout(r->Some_0.0, r->Some_0.1@) == data@,
        r is None ==> forall|variant: u8, blocks: Seq<CommittedBatch>|
            blocks_fit(blocks) ==> #[trigger] response_layout(variant, blocks) != data@,
{
    let (variant, parts): (u8, Vec<([u8; 32], Vec<[u8; 32]>, u64, u64)>) = bcs::from_bytes(data).ok()?;
    let blocks = parts.into_iter().map(|(anchor, certificates, sequence, committed_at)| CommittedBatch {
        anchor: Blake3Digest(anchor),
        certificates: certificates.into_iter().map(Blake3Digest).collect(),
        sequence: CommitSequence(sequence),
        committed_at: TimestampMs(committed_at),
    });
    Some((variant, blocks.collect()))
}

/// `bcs::to_bytes` of a validator identity, as the pair of its parts: fails
/// only on a key that is too long.
#[verifier::external_body]
pub(crate) fn encode_identity(key: &Vec<u8>, epoch: u64) -> (r: Option<Vec<u8>>)
    ensures
        r is Some <==> key@.len() <= MAX_SEQUENCE_LENGTH,
        r is Some ==> r->Some_0@ == identity_layout(key@, epoch),
{
    bcs::to_bytes(&(key, epoch)).ok()
}

/// `bcs::from_bytes` of a validator identity, as the pair of its parts:
/// succeeds exactly on the encoding of such a pair.
#[verifier::external_body]
pub(crate) fn decode_identity(data: &[u8]) -> (r: Option<(Vec<u8>, u64)>)
    ensures
        r is Some ==> r->Some_0.0@.len() <= MAX_SEQUENCE_LENGTH && identity_layout(
            r->Some_0.0@,
            r->Some_0.1,
        ) == data@,
        r is None ==> forall|key: Seq<u8>, epoch: u64|
            key.len() <= MAX_SEQUENCE_LENGTH ==> #[trigger] identity_layout(key, epoch) != data@,
{
    bcs::from_bytes(data).ok()
}

/// `bcs::to_bytes` of a 32-bit number: its four bytes, the lowest first.
#[verifier::external_body]
pub(crate) fn encode_u32(n: u32) -> (r: Option<Vec<u8>>)
    ensures
        r is Some,
        r->Some_0@ == le_bytes(n as nat, 4),
{
    bcs::to_bytes(&n).ok()
}

/// `bcs::from_bytes` of a 32-bit number: succeeds exactly on four bytes.
#[verifier::external_body]
pub(crate) fn decode_u32(data: &[u8]) -> (r: Option<u32>)
    ensures
        r is Some <==> data@.len() == 4,
        r is Some ==> r->Some_0 == le_value(data@),
{
    bcs::from_bytes(data).ok()
}

proof fn lemma_uleb_prefix(m: nat, s: Seq<u8>, n: nat, t: Seq<u8>)
    requires
        uleb(m) + s == uleb(n) + t,
    ensures
        m == n,
        s == t,
    decreases m,
{
    let x = uleb(m) + s;
    let y = uleb(n) + t;
    assert(x[0] == y[0]);
    assert(uleb(m).len() > 0 && uleb(n).len() > 0);
    if m < 128 {
        assert(x[0] == m as u8);
        if n >= 128 {
            assert(y[0] == (n % 128 + 128) as u8);
        } else {
            assert(y[0] == n as u8);
            assert(x.drop_first() =~= s);
            assert(y.drop_first() =~= t);
        }
    } else {
        assert(x[0] == (m % 128 + 128) as u8);
        if n < 128 {
            assert(y[0] == n as u8);
        } else {
            assert(y[0] == (n % 128 + 128) as u8);
            assert(x.drop_first() =~= uleb(m / 128) + s);
            assert(y.drop_first() =~= uleb(n / 128) + t);
            lemma_uleb_prefix(m / 128, s, n / 128, t);
        }
    }
}

proof fn lemma_split(a: Seq<u8>, b: Seq<u8>, c: Seq<u8>, d: Seq<u8>)
    requires
        a + b == c + d,
        a.len() == c.len(),
    ensures
        a == c,
        b == d,
{
    let x = a + b;
    let y = c + d;
    assert(x.subrange(0, a.len() as int) =~= a);
    assert(y.subrange(0, c.len() as int) =~= c);
    assert(x.subrange(a.len() as int, x.len() as int) =~= b);
    assert(y.subrange(c.len() as int, y.len() as int) =~= d);
}

proof fn lemma_le8_injective(a: u64, b: u64)
    requires
        le_bytes(a as nat, 8) == le_bytes(b as nat, 8),
    ensures
        a == b,
{
    lemma_pow256_values();
    lemma_le_roundtrip(a as nat, 8);
    lemma_le_roundtrip(b as nat, 8);
}

/// The layout of a stored identity determines the identity.
pub proof fn law_identity_layout_is_unambiguous(k1: Seq<u8>, e1: u64, k2: Seq<u8>, e2: u64)
    requires
        identity_layout(k1, e1) == identity_layout(k2, e2),
    ensures
        k1 == k2,
        e1 == e2,
{
    lemma_uleb_prefix(
        k1.len(),
        k1 + le_bytes(e1 as nat, 8),
        k2.len(),
        k2 + le_bytes(e2 as nat, 8),
    );
    lemma_split(k1, le_bytes(e1 as nat, 8), k2, le_bytes(e2 as nat, 8));
    lemma_le8_injective(e1, e2);
}

proof fn lemma_digests_len(d: Seq<Blake3Digest>)
    ensures
        digests_layout(d).len() == 32 * d.len(),
    decreases d.len(),
{
    if d.len() > 0 {
        lemma_digests_len(d.drop_last());
    }
}

/// Whether two lists hold the same digests.
pub open spec fn same_digests(a: Seq<Blake3Digest>, b: Seq<Blake3Digest>) -> bool {
    &&& a.len() == b.len()
    &&& forall|i: int| 0 <= i < a.len() ==> (#[trigger] a[i])@ == b[i]@
}

proof fn lemma_digests_injective(a: Seq<Blake3Digest>, b: Seq<Blake3Digest>)
    requires
        a.len() == b.len(),
        digests_layout(a) == digests_layout(b),
    ensures
        same_digests(a, b),
    decreases a.len(),
{
    if a.len() > 0 {
        lemma_digests_len(a.drop_last());
        lemma_digests_len(b.drop_last());
        lemma_split(
            digests_layout(a.drop_last()),
            a.last()@,
            digests_layout(b.drop_last()),
            b.last()@,
        );
        lemma_digests_injective(a.drop_last(), b.drop_last());
        assert forall|i: int| 0 <= i < a.len() implies (#[trigger] a[i])@ == b[i]@ by {
            if i < a.len() - 1 {
                assert(a.drop_last()[i]@ == b.drop_last()[i]@);
            }
        }
    }
}

/// Whether two blocks have the same contents.
pub open spec fn same_block(a: CommittedBatch, b: CommittedBatch) -> bool {
    &&& a.anchor@ == b.anchor@
    &&& same_digests(a.certificates@, b.certificates@)
    &&& a.sequence == b.sequence
    &&& a.committed_at == b.committed_at
}

proof fn lemma_block_prefix(a: CommittedBatch, s: Seq<u8>, b: CommittedBatch, t: Seq<u8>)
    requires
        block_layout(a) + s == block_layout(b) + t,
    ensures
        same_block(a, b),
        s == t,
{
    let qa = le_bytes(a.sequence.0 as nat, 8);
    let qb = le_bytes(b.sequence.0 as nat, 8);
    let ca = le_bytes(a.committed_at.0 as nat, 8);
    let cb = le_bytes(b.committed_at.0 as nat, 8);
    let da = digests_layout(a.certificates@);
    let db = digests_layout(b.certificates@);
    let ra = da + (qa + (ca + s));
    let rb = db + (qb + (cb + t));
    assert(block_layout(a) + s =~= a.anchor@ + (uleb(a.certificates@.len()) + ra));
    assert(block_layout(b) + t =~= b.anchor@ + (uleb(b.certificates@.len()) + rb));
    lemma_split(
        a.anchor@,
        uleb(a.certificates@.len()) + ra,
        b.anchor@,
        uleb(b.certificates@.len()) + rb,
    );
    lemma_uleb_prefix(a.certificates@.len(), ra, b.certificates@.len(), rb);
    lemma_digests_len(a.certificates@);
    lemma_digests_len(b.certificates@);
    lemma_split(da, qa + (ca + s), db, qb + (cb + t));
    lemma_digests_injective(a.certificates@, b.certificates@);
    lemma_bytes_len(a.sequence.0 as nat, 8);
    lemma_bytes_len(b.sequence.0 as nat, 8);
    lemma_bytes_len(a.committed_at.0 as nat, 8);
    lemma_bytes_len(b.committed_at.0 as nat, 8);
    lemma_split(qa, ca + s, qb, cb + t);
    lemma_split(ca, s, cb, t);
    lemma_le8_injective(a.sequence.0, b.sequence.0);
    lemma_le8_injective(a.committed_at.0, b.committed_at.0);
}

/// The layout of a block determines its contents.
pub proof fn law_block_layout_is_unambiguous(a: CommittedBatch, b: CommittedBatch)
    requires
        block_layout(a) == block_layout(b),
    ensures
        same_block(a, b),
{
    let none = Seq::<u8>::empty();
    assert(block_layout(a) + none =~= block_layout(b) + none);
    lemma_block_prefix(a, none, b, none);
}

/// Whether two lists of blocks have the same contents.
pub open spec fn same_blocks(a: Seq<CommittedBatch>, b: Seq<CommittedBatch>) -> bool {
    &&& a.len() == b.len()
    &&& forall|i: int| 0 <= i < a.len() ==> same_block(#[trigger] a[i], b[i])
}

proof fn lemma_blocks_injective(a: Seq<CommittedBatch>, b: Seq<CommittedBatch>)
    requires
        a.len() == b.len(),
        blocks_layout(a) == blocks_layout(b),
    ensures
        same_blocks(a, b),
    decreases a.len(),
{
    if a.len() > 0 {
        lemma_block_prefix(
            a[0],
            blocks_layout(a.drop_first()),
            b[0],
            blocks_layout(b.drop_first()),
        );
        lemma_blocks_injective(a.drop_first(), b.drop_first());
        assert forall|i: int| 0 <= i < a.len() implies same_block(#[trigger] a[i], b[i]) by {
            if i > 0 {
                assert(same_block(a.drop_first()[i - 1], b.drop_first()[i - 1]));
            }
        }
    }
}

/// The layout of a block request determines its parts.
pub proof fn law_request_layout_is_unambiguous(
    v1: u8,
    f1: u64,
    c1: u64,
    r1: Seq<u8>,
    v2: u8,
    f2: u64,
    c2: u64,
    r2: Seq<u8>,
)
    requires
        request_layout(v1, f1, c1, r1) == request_layout(v2, f2, c2, r2),
    ensures
        v1 == v2,
        f1 == f2,
        c1 == c2,
        r1 == r2,
{
    let x1 = le_bytes(c1 as nat, 8) + r1;
    let x2 = le_bytes(c2 as nat, 8) + r2;
    lemma_split(seq![v1], le_bytes(f1 as nat, 8) + x1, seq![v2], le_bytes(f2 as nat, 8) + x2);
    assert(seq![v1][0] == seq![v2][0]);
    lemma_bytes_len(f1 as nat, 8);
    lemma_bytes_len(f2 as nat, 8);
    lemma_bytes_len(c1 as nat, 8);
    lemma_bytes_len(c2 as nat, 8);
    lemma_split(le_bytes(f1 as nat, 8), x1, le_bytes(f2 as nat, 8), x2);
    lemma_split(le_bytes(c1 as nat, 8), r1, le_bytes(c2 as nat, 8), r2);
    lemma_le8_injective(f1, f2);
    lemma_le8_injective(c1, c2);
}

/// The layout of a block response determines its blocks.
pub proof fn law_response_layout_is_unambiguous(
    v1: u8,
    b1: Seq<CommittedBatch>,
    v2: u8,
    b2: Seq<CommittedBatch>,
)
    requires
        response_layout(v1, b1) == response_layout(v2, b2),
    ensures
        v1 == v2,
        same_blocks(b1, b2),
{
    lemma_split(
        seq![v1],
        uleb(b1.len()) + blocks_layout(b1),
        seq![v2],
        uleb(b2.len()) + blocks_layout(b2),
    );
    assert(seq![v1][0] == seq![v2][0]);
    lemma_uleb_prefix(b1.len(), blocks_layout(b1), b2.len(), blocks_layout(b2));
    lemma_blocks_injective(b1, b2);
}

} // verus!
