//! Proofs of the committed state.

use vstd::prelude::*;
use vstd::string::*;

use crate::primitives::hexadecimal::{
    decode, encode, hex_decoded, hex_encode, hex_error_text, lemma_decode_encode,
    lemma_decoding_is_unique,
};
use crate::primitives::text::{decimal, decimal_text, join, join3};
use crate::primitives::Blake3Digest;
use crate::rpc::dto::{
    BatchStateProofRequest, BatchStateProofResponse, MerkleNeighborProofDto, MerkleProofDto,
    SingleProofDto, StateCommitmentDto, StateProofRequest, StateProofResponse,
};
use crate::rpc::error::{RpcError, RpcErrorView, RpcResult};
use crate::rpc::rest::backends::{
    not_available, MerkleNeighborProof, MerkleProof, StateProofBackend,
};
use crate::rpc::rest::session::optional_text;

verus! {

/// Most keys of a batch request.
pub const MAX_BATCH_KEYS: usize = 100;

/// Whether `texts` are the hexadecimal forms of `digests`.
pub open spec fn shows_digests(texts: Seq<String>, digests: Seq<Blake3Digest>) -> bool {
    &&& texts.len() == digests.len()
    &&& forall|i: int|
        0 <= i < digests.len() ==> (#[trigger] texts[i])@ == hex_encode(digests[i]@)
}

fn digest_texts(digests: &Vec<Blake3Digest>) -> (r: Vec<String>)
    ensures
        shows_digests(r@, digests@),
{
    let mut texts: Vec<String> = Vec::new();
    let mut i: usize = 0;
    while i < digests.len()
        invariant
            0 <= i <= digests@.len(),
            texts@.len() == i,
            forall|j: int| 0 <= j < i ==> (#[trigger] texts@[j])@ == hex_encode(digests@[j]@),
        decreases digests@.len() - i,
    {
        texts.push(digests[i].to_hex());
        i = i + 1;
    }
    texts
}

/// Whether `dto` shows the neighbour `neighbor`.
pub open spec fn shows_neighbor(dto: MerkleNeighborProofDto, neighbor: MerkleNeighborProof) -> bool {
    &&& dto.key@ == hex_encode(neighbor.key@)
    &&& dto.value@ == hex_encode(neighbor.value@)
    &&& dto.leaf_index == neighbor.leaf_index
    &&& shows_digests(dto.siblings@, neighbor.siblings@)
}

/// Whether `dto` shows a neighbour that may be absent.
pub open spec fn shows_optional_neighbor(
    dto: Option<MerkleNeighborProofDto>,
    neighbor: Option<MerkleNeighborProof>,
) -> bool {
    match (dto, neighbor) {
        (Some(d), Some(n)) => shows_neighbor(d, n),
        (None, None) => true,
        _ => false,
    }
}

/// Whether `dto` shows the proof `witness`.
pub open spec fn shows_proof(dto: MerkleProofDto, witness: MerkleProof) -> bool {
    match witness {
        MerkleProof::Inclusion { leaf_index, leaf_count, siblings } => {
            &&& dto.proof_type@ == "inclusion"@
            &&& dto.leaf_count == leaf_count
            &&& dto.leaf_index == Some(leaf_index)
            &&& shows_digests(dto.siblings@, siblings@)
            &&& dto.left_neighbor is None
            &&& dto.right_neighbor is None
        },
        MerkleProof::Exclusion { leaf_count, left_neighbor, right_neighbor } => {
            &&& dto.proof_type@ == "exclusion"@
            &&& dto.leaf_count == leaf_count
            &&& dto.leaf_index is None
            &&& dto.siblings@.len() == 0
            &&& shows_optional_neighbor(dto.left_neighbor, left_neighbor)
            &&& shows_optional_neighbor(dto.right_neighbor, right_neighbor)
        },
    }
}

fn neighbor_proof_to_dto(neighbor: &MerkleNeighborProof) -> (r: MerkleNeighborProofDto)
    ensures
        shows_neighbor(r, *neighbor),
{
    MerkleNeighborProofDto {
        key: encode(neighbor.key.as_slice()),
        value: encode(neighbor.value.as_slice()),
        leaf_index: neighbor.leaf_index,
        siblings: digest_texts(&neighbor.siblings),
    }
}

fn optional_neighbor_to_dto(neighbor: &Option<MerkleNeighborProof>) -> (r: Option<
    MerkleNeighborProofDto,
>)
    ensures
        shows_optional_neighbor(r, *neighbor),
{
    match neighbor {
        Some(n) => Some(neighbor_proof_to_dto(n)),
        None => None,
    }
}

/// The public form of a proof.
pub fn merkle_proof_to_dto(witness: &MerkleProof) -> (r: MerkleProofDto)
    ensures
        shows_proof(r, *witness),
{
    match witness {
        MerkleProof::Inclusion { leaf_index, leaf_count, siblings } => MerkleProofDto {
            proof_type: "inclusion".to_owned(),
            leaf_count: *leaf_count,
            leaf_index: Some(*leaf_index),
            siblings: digest_texts(siblings),
            left_neighbor: None,
            right_neighbor: None,
        },
        MerkleProof::Exclusion { leaf_count, left_neighbor, right_neighbor } => MerkleProofDto {
            proof_type: "exclusion".to_owned(),
            leaf_count: *leaf_count,
            leaf_index: None,
            siblings: Vec::new(),
            left_neighbor: optional_neighbor_to_dto(left_neighbor),
            right_neighbor: optional_neighbor_to_dto(right_neighbor),
        },
    }
}

/// Whether two neighbours say the same.
pub open spec fn same_neighbor(a: MerkleNeighborProof, b: MerkleNeighborProof) -> bool {
    &&& a.key@ == b.key@
    &&& a.value@ == b.value@
    &&& a.leaf_index == b.leaf_index
    &&& same_digests(a.siblings@, b.siblings@)
}

/// Whether two lists hold digests of the same bytes.
pub open spec fn same_digests(a: Seq<Blake3Digest>, b: Seq<Blake3Digest>) -> bool {
    &&& a.len() == b.len()
    &&& forall|i: int| 0 <= i < a.len() ==> (#[trigger] a[i])@ == b[i]@
}

/// Whether two neighbours that may be absent say the same.
pub open spec fn same_optional_neighbor(
    a: Option<MerkleNeighborProof>,
    b: Option<MerkleNeighborProof>,
) -> bool {
    match (a, b) {
        (Some(x), Some(y)) => same_neighbor(x, y),
        (None, None) => true,
        _ => false,
    }
}

/// Whether two proofs say the same.
pub open spec fn same_proof(a: MerkleProof, b: MerkleProof) -> bool {
    match (a, b) {
        (
            MerkleProof::Inclusion { leaf_index: i, leaf_count: n, siblings: s },
            MerkleProof::Inclusion { leaf_index: j, leaf_count: m, siblings: t },
        ) => i == j && n == m && same_digests(s@, t@),
        (
            MerkleProof::Exclusion { leaf_count: n, left_neighbor: l, right_neighbor: r },
            MerkleProof::Exclusion { leaf_count: m, left_neighbor: k, right_neighbor: q },
        ) => n == m && same_optional_neighbor(l, k) && same_optional_neighbor(r, q),
        _ => false,
    }
}

proof fn lemma_hex_injective(a: Seq<u8>, b: Seq<u8>)
    ensures
        hex_encode(a) == hex_encode(b) ==> a == b,
{
    lemma_decode_encode(a);
    lemma_decode_encode(b);
}

proof fn lemma_digests_injective(texts: Seq<String>, a: Seq<Blake3Digest>, b: Seq<Blake3Digest>)
    requires
        shows_digests(texts, a),
        shows_digests(texts, b),
    ensures
        same_digests(a, b),
{
    assert forall|i: int| 0 <= i < a.len() implies (#[trigger] a[i])@ == b[i]@ by {
        assert(texts[i]@ == hex_encode(a[i]@));
        lemma_hex_injective(a[i]@, b[i]@);
    }
}

proof fn lemma_neighbors_injective(
    dto: Option<MerkleNeighborProofDto>,
    a: Option<MerkleNeighborProof>,
    b: Option<MerkleNeighborProof>,
)
    requires
        shows_optional_neighbor(dto, a),
        shows_optional_neighbor(dto, b),
    ensures
        same_optional_neighbor(a, b),
{
    if dto is Some {
        let d = dto->Some_0;
        let x = a->Some_0;
        let y = b->Some_0;
        lemma_hex_injective(x.key@, y.key@);
        lemma_hex_injective(x.value@, y.value@);
        lemma_digests_injective(d.siblings@, x.siblings@, y.siblings@);
    }
}

/// The public form of a proof loses nothing: proofs with the same public form
/// say the same.
pub proof fn law_public_proofs_are_faithful(dto: MerkleProofDto, a: MerkleProof, b: MerkleProof)
    requires
        shows_proof(dto, a),
        shows_proof(dto, b),
    ensures
        same_proof(a, b),
{
    reveal_strlit("inclusion");
    reveal_strlit("exclusion");
    assert("inclusion"@[0] != "exclusion"@[0]);
    match (a, b) {
        (
            MerkleProof::Inclusion { leaf_index: _, leaf_count: _, siblings: s },
            MerkleProof::Inclusion { leaf_index: _, leaf_count: _, siblings: t },
        ) => {
            lemma_digests_injective(dto.siblings@, s@, t@);
        },
        (
            MerkleProof::Exclusion { leaf_count: _, left_neighbor: l, right_neighbor: r },
            MerkleProof::Exclusion { leaf_count: _, left_neighbor: k, right_neighbor: q },
        ) => {
            lemma_neighbors_injective(dto.left_neighbor, l, k);
            lemma_neighbors_injective(dto.right_neighbor, r, q);
        },
        _ => {},
    }
}

/// `GET /v2/state/commitment`: the current commitment.
pub fn state_commitment<B: StateProofBackend + ?Sized>(backend: Option<&B>) -> (r: RpcResult<StateCommitmentDto>)
    ensures
        match backend {
            None => not_available(r, "state commitment not available"@),
            Some(b) => call_ensures(B::commitment_info, (b,), r),
        },
{
    match backend {
        None => Err(RpcError::Unavailable("state commitment not available".to_owned())),
        Some(b) => b.commitment_info(),
    }
}

/// Whether the backend answers with `answer` when asked for the root.
pub open spec fn root_asked<B: StateProofBackend + ?Sized>(backend: &B, answer: RpcResult<Blake3Digest>) -> bool {
    call_ensures(B::commitment_root, (backend,), answer)
}

/// Whether the backend answers with `answer` when asked to prove `key`.
pub open spec fn proof_asked<B: StateProofBackend + ?Sized>(
    backend: &B,
    key: Seq<u8>,
    answer: RpcResult<(Option<Vec<u8>>, MerkleProof)>,
) -> bool {
    exists|k: Vec<u8>|
        k@ == key && #[trigger] call_ensures(B::prove_key, (backend, &k), answer)
}

/// The hexadecimal form of a value that may be absent.
pub open spec fn optional_value_hex(value: Option<Vec<u8>>) -> Option<Seq<char>> {
    match value {
        Some(v) => Some(hex_encode(v@)),
        None => None,
    }
}

fn optional_value_text(value: &Option<Vec<u8>>) -> (r: Option<String>)
    ensures
        optional_text(r) == optional_value_hex(*value),
{
    match value {
        Some(v) => Some(encode(v.as_slice())),
        None => None,
    }
}

/// Whether `r` is the reply where `root` is the root and `answer` the proof.
pub open spec fn proof_reported(
    r: RpcResult<StateProofResponse>,
    root: RpcResult<Blake3Digest>,
    answer: RpcResult<(Option<Vec<u8>>, MerkleProof)>,
) -> bool {
    match (root, answer) {
        (Err(e), _) => r is Err && r->Err_0 == e,
        (Ok(_), Err(e)) => r is Err && r->Err_0 == e,
        (Ok(digest), Ok((value, witness))) => {
            &&& r is Ok
            &&& r->Ok_0.commitment_root@ == hex_encode(digest@)
            &&& optional_text(r->Ok_0.value) == optional_value_hex(value)
            &&& r->Ok_0.proof_version@ == "blake3-merkle-v1"@
            &&& r->Ok_0.encoding_format@ == "bcs-hex"@
            &&& shows_proof(r->Ok_0.proof, witness)
        },
    }
}

/// Whether `r` is the reply of the backend to a request to prove `key`: the
/// root is asked for first, and the proof only where there is a root.
pub open spec fn key_proved<B: StateProofBackend + ?Sized>(
    r: RpcResult<StateProofResponse>,
    backend: &B,
    key: Seq<u8>,
) -> bool {
    exists|root: RpcResult<Blake3Digest>|
        {
            &&& #[trigger] root_asked(backend, root)
            &&& match root {
                Err(e) => r is Err && r->Err_0 == e,
                Ok(_) => exists|answer: RpcResult<(Option<Vec<u8>>, MerkleProof)>|
                    {
                        &&& #[trigger] proof_asked(backend, key, answer)
                        &&& proof_reported(r, root, answer)
                    },
            }
        }
}

/// `POST /v2/state/proof`: proves that a key is, or is not, in the state.
pub fn state_proof<B: StateProofBackend + ?Sized>(backend: Option<&B>, req: &StateProofRequest) -> (r: RpcResult<
    StateProofResponse,
>)
    ensures
        match backend {
            None => not_available(r, "state proofs not available"@),
            Some(b) => match hex_decoded(req.key@) {
                Err(e) => r is Err && r->Err_0@ == RpcErrorView::BadRequest(
                    "invalid hex key: "@ + hex_error_text(e),
                ),
                Ok(key) => key_proved(r, b, key),
            },
        },
{
    let b = match backend {
        Some(b) => b,
        None => {
            return Err(RpcError::Unavailable("state proofs not available".to_owned()));
        },
    };
    proof {
        lemma_decoding_is_unique(req.key@);
    }
    let key = match decode(req.key.as_str()) {
        Ok(key) => key,
        Err(e) => {
            return Err(RpcError::BadRequest(join("invalid hex key: ", e.to_string().as_str())));
        },
    };
    let root = b.commitment_root();
    assert(root_asked(b, root));
    let digest = match root {
        Ok(digest) => digest,
        Err(e) => {
            return Err(e);
        },
    };
    let answer = b.prove_key(&key);
    assert(proof_asked(b, key@, answer)) by {
        assert(call_ensures(B::prove_key, (b, &key), answer));
    }
    let (value, witness) = match answer {
        Ok(found) => found,
        Err(e) => {
            return Err(e);
        },
    };
    Ok(
        StateProofResponse {
            commitment_root: digest.to_hex(),
            value: optional_value_text(&value),
            proof_version: "blake3-merkle-v1".to_owned(),
            encoding_format: "bcs-hex".to_owned(),
            proof: merkle_proof_to_dto(&witness),
        },
    )
}

/// The bytes of the hexadecimal keys `keys`, or the report of the first that
/// is malformed.
pub open spec fn keys_outcome(keys: Seq<String>) -> Result<Seq<Seq<u8>>, RpcErrorView>
    decreases keys.len(),
{
    if keys.len() == 0 {
        Ok(Seq::empty())
    } else {
        match keys_outcome(keys.drop_last()) {
            Err(e) => Err(e),
            Ok(earlier) => match hex_decoded(keys.last()@) {
                Ok(bytes) => Ok(earlier.push(bytes)),
                Err(e) => Err(
                    RpcErrorView::BadRequest(
                        "invalid hex key at index "@ + decimal((keys.len() - 1) as nat) + ": "@
                            + hex_error_text(e),
                    ),
                ),
            },
        }
    }
}

proof fn lemma_first_fault_stays(keys: Seq<String>, n: int)
    requires
        0 <= n <= keys.len(),
        keys_outcome(keys.take(n)) is Err,
    ensures
        keys_outcome(keys) == keys_outcome(keys.take(n)),
    decreases keys.len() - n,
{
    if n < keys.len() {
        assert(keys.take(n + 1).drop_last() =~= keys.take(n));
        lemma_first_fault_stays(keys, n + 1);
    } else {
        assert(keys.take(n) =~= keys);
    }
}

fn decode_keys(keys: &Vec<String>) -> (r: Result<Vec<Vec<u8>>, RpcError>)
    ensures
        match keys_outcome(keys@) {
            Ok(bytes) => r is Ok && r->Ok_0@.map_values(|k: Vec<u8>| k@) == bytes,
            Err(e) => r is Err && r->Err_0@ == e,
        },
{
    let mut out: Vec<Vec<u8>> = Vec::new();
    let mut i: usize = 0;
    assert(keys@.take(0) =~= Seq::<String>::empty());
    assert(out@.map_values(|k: Vec<u8>| k@) =~= Seq::<Seq<u8>>::empty());
    while i < keys.len()
        invariant
            0 <= i <= keys@.len(),
            keys_outcome(keys@.take(i as int)) == Ok::<Seq<Seq<u8>>, RpcErrorView>(
                out@.map_values(|k: Vec<u8>| k@),
            ),
        decreases keys@.len() - i,
    {
        let ghost head = keys@.take(i + 1);
        let ghost before = out@;
        proof {
            lemma_decoding_is_unique(keys@[i as int]@);
            assert(head.drop_last() =~= keys@.take(i as int));
            assert(head.last() == keys@[i as int]);
        }
        match decode(keys[i].as_str()) {
            Ok(bytes) => {
                out.push(bytes);
                assert(out@.map_values(|k: Vec<u8>| k@) =~= before.map_values(
                    |k: Vec<u8>| k@,
                ).push(bytes@));
            },
            Err(e) => {
                let mut text = join3(
                    "invalid hex key at index ",
                    decimal_text(i as u64).as_str(),
                    ": ",
                );
                text.append(e.to_string().as_str());
                proof {
                    lemma_first_fault_stays(keys@, i + 1);
                }
                return Err(RpcError::BadRequest(text));
            },
        }
        i = i + 1;
    }
    assert(keys@.take(i as int) =~= keys@);
    Ok(out)
}

/// Whether the backend answers with `answer` when asked to prove `keys`.
pub open spec fn proofs_asked<B: StateProofBackend + ?Sized>(
    backend: &B,
    keys: Seq<Seq<u8>>,
    answer: RpcResult<Vec<(Option<Vec<u8>>, MerkleProof)>>,
) -> bool {
    exists|k: Vec<Vec<u8>>|
        {
            &&& #[trigger] call_ensures(B::prove_keys, (backend, &k), answer)
            &&& k@.map_values(|x: Vec<u8>| x@) == keys
        }
}

/// Whether `proofs` pairs the hexadecimal keys with what was proved of them,
/// as far as there are both.
pub open spec fn pairs_proofs(
    proofs: Seq<SingleProofDto>,
    keys: Seq<String>,
    found: Seq<(Option<Vec<u8>>, MerkleProof)>,
) -> bool {
    &&& proofs.len() == if keys.len() <= found.len() {
        keys.len()
    } else {
        found.len()
    }
    &&& forall|i: int|
        0 <= i < proofs.len() ==> {
            &&& (#[trigger] proofs[i]).key@ == keys[i]@
            &&& optional_text(proofs[i].value) == optional_value_hex(found[i].0)
            &&& shows_proof(proofs[i].proof, found[i].1)
        }
}

/// Whether `r` is the reply of the backend to a request to prove `keys`, given
/// in hexadecimal as `texts`.
pub open spec fn keys_proved<B: StateProofBackend + ?Sized>(
    r: RpcResult<BatchStateProofResponse>,
    backend: &B,
    texts: Seq<String>,
    keys: Seq<Seq<u8>>,
) -> bool {
    exists|root: RpcResult<Blake3Digest>|
        {
            &&& #[trigger] root_asked(backend, root)
            &&& match root {
                Err(e) => r is Err && r->Err_0 == e,
                Ok(digest) => exists|answer: RpcResult<Vec<(Option<Vec<u8>>, MerkleProof)>>|
                    {
                        &&& #[trigger] proofs_asked(backend, keys, answer)
                        &&& match answer {
                            Err(e) => r is Err && r->Err_0 == e,
                            Ok(found) => {
                                &&& r is Ok
                                &&& r->Ok_0.commitment_root@ == hex_encode(digest@)
                                &&& r->Ok_0.proof_version@ == "blake3-merkle-v1"@
                                &&& r->Ok_0.encoding_format@ == "bcs-hex"@
                                &&& pairs_proofs(r->Ok_0.proofs@, texts, found@)
                            },
                        }
                    },
            }
        }
}

fn pair_proofs(keys: &Vec<String>, found: &Vec<(Option<Vec<u8>>, MerkleProof)>) -> (r: Vec<
    SingleProofDto,
>)
    ensures
        pairs_proofs(r@, keys@, found@),
{
    let mut proofs: Vec<SingleProofDto> = Vec::new();
    let mut i: usize = 0;
    while i < keys.len() && i < found.len()
        invariant
            0 <= i <= keys@.len(),
            i <= found@.len(),
            proofs@.len() == i,
            forall|j: int|
                0 <= j < i ==> {
                    &&& (#[trigger] proofs@[j]).key@ == keys@[j]@
                    &&& optional_text(proofs@[j].value) == optional_value_hex(found@[j].0)
                    &&& shows_proof(proofs@[j].proof, found@[j].1)
                },
        decreases keys@.len() - i,
    {
        let dto = SingleProofDto {
            key: keys[i].clone(),
            value: optional_value_text(&found[i].0),
            proof: merkle_proof_to_dto(&found[i].1),
        };
        proofs.push(dto);
        i = i + 1;
    }
    proofs
}

/// `POST /v2/state/proofs`: proves for each of several keys that it is, or is
/// not, in the state.
pub fn batch_state_proof<B: StateProofBackend + ?Sized>(backend: Option<&B>, req: &BatchStateProofRequest) -> (r:
    RpcResult<BatchStateProofResponse>)
    ensures
        match backend {
            None => not_available(r, "state proofs not available"@),
            Some(b) => if req.keys@.len() == 0 {
                r is Err && r->Err_0@ == RpcErrorView::BadRequest("keys array must not be empty"@)
            } else if req.keys@.len() > MAX_BATCH_KEYS {
                r is Err && r->Err_0@ == RpcErrorView::BadRequest(
                    "at most "@ + decimal(MAX_BATCH_KEYS as nat) + " keys per request"@,
                )
            } else {
                match keys_outcome(req.keys@) {
                    Err(e) => r is Err && r->Err_0@ == e,
                    Ok(keys) => keys_proved(r, b, req.keys@, keys),
                }
            },
        },
{
    let b = match backend {
        Some(b) => b,
        None => {
            return Err(RpcError::Unavailable("state proofs not available".to_owned()));
        },
    };
    if req.keys.len() == 0 {
        return Err(RpcError::BadRequest("keys array must not be empty".to_owned()));
    }
    if req.keys.len() > MAX_BATCH_KEYS {
        return Err(
            RpcError::BadRequest(
                join3(
                    "at most ",
                    decimal_text(MAX_BATCH_KEYS as u64).as_str(),
                    " keys per request",
                ),
            ),
        );
    }
    let keys = match decode_keys(&req.keys) {
        Ok(keys) => keys,
        Err(e) => {
            return Err(e);
        },
    };
    let root = b.commitment_root();
    assert(root_asked(b, root));
    let digest = match root {
        Ok(digest) => digest,
        Err(e) => {
            return Err(e);
        },
    };
    let answer = b.prove_keys(&keys);
    let ghost key_bytes = keys_outcome(req.keys@)->Ok_0;
    assert(proofs_asked(b, key_bytes, answer)) by {
        assert(call_ensures(B::prove_keys, (b, &keys), answer));
    }
    let found = match answer {
        Ok(found) => found,
        Err(e) => {
            return Err(e);
        },
    };
    Ok(
        BatchStateProofResponse {
            commitment_root: digest.to_hex(),
            proof_version: "blake3-merkle-v1".to_owned(),
            encoding_format: "bcs-hex".to_owned(),
            proofs: pair_proofs(&req.keys, &found),
        },
    )
}

} // verus!
