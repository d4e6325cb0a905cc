//! What is shown of the committed state, of the network and of consensus.

use vstd::prelude::*;
use vstd::string::*;

use crate::node::consensus_types::ValidatorInfo;
use crate::primitives::hexadecimal::{hex_decoded, hex_encode, hex_error_text, HexError};
use crate::primitives::text::decimal;
use crate::primitives::Blake3Digest;
use crate::rpc::dto::{
    BatchStateProofRequest, BatchStateProofResponse, CompiledIntentPlan, ConsensusStatusDto,
    ElectionResultDto, EpochHistoryResponse, EpochInfoDto, ExecutionStatus, ExecutionStatusDto,
    GasEstimate, GasEstimateDto, IntentSubmitResponse, MerkleNeighborProofDto, MerkleProofDto,
    NetworkHealthResponse, NetworkPeersResponse, NetworkStatusResponse, RotationPolicyDto,
    StakingValidatorsResponse, StateCommitmentDto, StateProofRequest, StateProofResponse,
    TransactionReceipt, TransactionReceiptDto, ValidatorInfoDto,
};
use crate::rpc::error::{RpcError, RpcResult};
use crate::rpc::json::{member_from, JsonValue};
use crate::rpc::rest::backends::{
    ConsensusBackend, MerkleNeighborProof, MerkleProof, NetworkBackend, StateProofBackend,
};
use crate::rpc::rest::consensus::{
    consensus_status, election_result, epoch_history, epoch_info, list_validators, rotation_policy,
    staking_validators,
};
use crate::rpc::rest::endpoint_laws::{is_bad_request, is_unavailable};
use crate::rpc::rest::network::{network_health, network_peers, network_status};
use crate::rpc::rest::proofs::{
    batch_state_proof, keys_outcome, keys_proved, merkle_proof_to_dto, pairs_proofs, proof_asked,
    proof_reported, proofs_asked, root_asked, shows_proof, state_commitment, state_proof,
};

verus! {

/// Whether texts are the digests in hexadecimal, in their order.
pub open spec fn spell_digests(texts: Seq<String>, digests: Seq<Blake3Digest>) -> bool {
    &&& texts.len() == digests.len()
    &&& forall|i: int|
        0 <= i < digests.len() ==> (#[trigger] texts[i])@ == hex_encode(digests[i].0@)
}

/// Whether what is shown of a neighbour is the neighbour.
pub open spec fn tells_of_neighbor(
    dto: Option<MerkleNeighborProofDto>,
    neighbor: Option<MerkleNeighborProof>,
) -> bool {
    &&& dto is Some <==> neighbor is Some
    &&& dto is Some ==> {
        &&& dto->Some_0.key@ == hex_encode(neighbor->Some_0.key@)
        &&& dto->Some_0.value@ == hex_encode(neighbor->Some_0.value@)
        &&& dto->Some_0.leaf_index == neighbor->Some_0.leaf_index
        &&& spell_digests(dto->Some_0.siblings@, neighbor->Some_0.siblings@)
    }
}

/// Whether what is shown of a proof is the proof, of inclusion or of exclusion,
/// each neighbour on its own side.
pub open spec fn tells_of_proof(dto: MerkleProofDto, witness: MerkleProof) -> bool {
    &&& witness is Inclusion ==> {
        &&& dto.proof_type@ == "inclusion"@
        &&& dto.leaf_count == witness->Inclusion_leaf_count
        &&& dto.leaf_index is Some && dto.leaf_index->Some_0 == witness->leaf_index
        &&& spell_digests(dto.siblings@, witness->siblings@)
        &&& dto.left_neighbor is None && dto.right_neighbor is None
    }
    &&& witness is Exclusion ==> {
        &&& dto.proof_type@ == "exclusion"@
        &&& dto.leaf_count == witness->Exclusion_leaf_count
        &&& dto.leaf_index is None
        &&& dto.siblings@.len() == 0
        &&& tells_of_neighbor(dto.left_neighbor, witness->left_neighbor)
        &&& tells_of_neighbor(dto.right_neighbor, witness->right_neighbor)
    }
}

/// A proof is shown part by part.
pub proof fn law_proofs_are_shown_part_by_part(witness: MerkleProof, r: MerkleProofDto)
    requires
        call_ensures(merkle_proof_to_dto, (&witness,), r),
    ensures
        tells_of_proof(r, witness),
{
    lemma_proof(r, witness);
}

proof fn lemma_proof(dto: MerkleProofDto, witness: MerkleProof)
    requires
        shows_proof(dto, witness),
    ensures
        tells_of_proof(dto, witness),
{
}

/// Whether a text is a value in hexadecimal, or both are missing.
pub open spec fn spells_value(text: Option<String>, value: Option<Vec<u8>>) -> bool {
    &&& text is Some <==> value is Some
    &&& text is Some ==> text->Some_0@ == hex_encode(value->Some_0@)
}

/// The commitment is what the node says it is.
pub proof fn law_commitments_are_the_nodes<B: StateProofBackend + ?Sized>(
    backend: Option<&B>,
    r: RpcResult<StateCommitmentDto>,
)
    requires
        call_ensures(state_commitment::<B>, (backend,), r),
    ensures
        backend is Some ==> call_ensures(B::commitment_info, (backend->Some_0,), r),
        backend is None ==> is_unavailable(r, "state commitment not available"@),
{
}

/// Whether `r` gives the proof of a key under the node's root: the value and
/// the proof that the node found for the key.
pub open spec fn proves<B: StateProofBackend + ?Sized>(
    r: StateProofResponse,
    backend: &B,
    key: Seq<u8>,
) -> bool {
    &&& r.proof_version@ == "blake3-merkle-v1"@
    &&& r.encoding_format@ == "bcs-hex"@
    &&& exists|root: Blake3Digest|
        {
            &&& #[trigger] call_ensures(B::commitment_root, (backend,), Ok(root))
            &&& r.commitment_root@ == hex_encode(root.0@)
        }
    &&& exists|k: Vec<u8>, value: Option<Vec<u8>>, witness: MerkleProof|
        {
            &&& k@ == key
            &&& #[trigger] call_ensures(B::prove_key, (backend, &k), Ok((value, witness)))
            &&& spells_value(r.value, value)
            &&& tells_of_proof(r.proof, witness)
        }
}

/// Whether the node failed with an error, on its root or on a key.
pub open spec fn failed_on<B: StateProofBackend + ?Sized>(
    backend: &B,
    key: Seq<u8>,
    e: RpcError,
) -> bool {
    ||| call_ensures(B::commitment_root, (backend,), Err(e))
    ||| exists|k: Vec<u8>|
        k@ == key && #[trigger] call_ensures(B::prove_key, (backend, &k), Err(e))
}

/// A state proof is of the key that the request spells: the value, the proof
/// and the root are what the node gave for it.
pub proof fn law_state_proofs_are_of_the_key<B: StateProofBackend + ?Sized>(
    backend: Option<&B>,
    req: StateProofRequest,
    r: RpcResult<StateProofResponse>,
)
    requires
        call_ensures(state_proof::<B>, (backend, &req), r),
    ensures
        backend is None ==> is_unavailable(r, "state proofs not available"@),
        backend is Some && hex_decoded(req.key@) is Err ==> is_bad_request(
            r,
            "invalid hex key: "@ + hex_error_text(hex_decoded(req.key@)->Err_0),
        ),
        backend is Some && hex_decoded(req.key@) is Ok && r is Ok ==> proves(
            r->Ok_0,
            backend->Some_0,
            hex_decoded(req.key@)->Ok_0,
        ),
        backend is Some && hex_decoded(req.key@) is Ok && r is Err ==> failed_on(
            backend->Some_0,
            hex_decoded(req.key@)->Ok_0,
            r->Err_0,
        ),
{
    if backend is Some && hex_decoded(req.key@) is Ok {
        let b = backend->Some_0;
        let key = hex_decoded(req.key@)->Ok_0;
        let root = choose|root: RpcResult<Blake3Digest>|
            {
                &&& #[trigger] root_asked(b, root)
                &&& match root {
                    Err(e) => r is Err && r->Err_0 == e,
                    Ok(_) => exists|answer: RpcResult<(Option<Vec<u8>>, MerkleProof)>|
                        {
                            &&& #[trigger] proof_asked(b, key, answer)
                            &&& proof_reported(r, root, answer)
                        },
                }
            };
        if root is Ok {
            let answer = choose|answer: RpcResult<(Option<Vec<u8>>, MerkleProof)>|
                {
                    &&& #[trigger] proof_asked(b, key, answer)
                    &&& proof_reported(r, root, answer)
                };
            let k = choose|k: Vec<u8>|
                k@ == key && #[trigger] call_ensures(B::prove_key, (b, &k), answer);
            assert(call_ensures(B::commitment_root, (b,), Ok(root->Ok_0)));
            if answer is Ok {
                let (value, witness) = answer->Ok_0;
                assert(call_ensures(B::prove_key, (b, &k), Ok((value, witness))));
                lemma_proof(r->Ok_0.proof, witness);
            } else {
                assert(call_ensures(B::prove_key, (b, &k), Err(answer->Err_0)));
            }
        } else {
            assert(call_ensures(B::commitment_root, (b,), Err(root->Err_0)));
        }
    }
}

proof fn lemma_keys_outcome(keys: Seq<String>)
    ensures
        keys_outcome(keys) is Ok <==> forall|i: int|
            0 <= i < keys.len() ==> hex_decoded((#[trigger] keys[i])@) is Ok,
        keys_outcome(keys) is Ok ==> keys_outcome(keys)->Ok_0.len() == keys.len() && forall|i: int|
            0 <= i < keys.len() ==> hex_decoded((#[trigger] keys[i])@) == Ok::<Seq<u8>, HexError>(
                keys_outcome(keys)->Ok_0[i],
            ),
        keys_outcome(keys) is Err ==> keys_outcome(keys)->Err_0 is BadRequest,
    decreases keys.len(),
{
    if keys.len() > 0 {
        let earlier = keys.drop_last();
        lemma_keys_outcome(earlier);
        assert forall|i: int| 0 <= i < earlier.len() implies #[trigger] earlier[i] == keys[i] by {}
        if keys_outcome(keys) is Ok {
            assert forall|i: int| 0 <= i < keys.len() implies hex_decoded((#[trigger] keys[i])@)
                == Ok::<Seq<u8>, HexError>(keys_outcome(keys)->Ok_0[i]) by {
                if i < keys.len() - 1 {
                    assert(earlier[i] == keys[i]);
                }
            }
        }
        if forall|i: int| 0 <= i < keys.len() ==> hex_decoded((#[trigger] keys[i])@) is Ok {
            assert forall|i: int| 0 <= i < earlier.len() implies hex_decoded(
                (#[trigger] earlier[i])@,
            ) is Ok by {
                assert(earlier[i] == keys[i]);
            }
            assert(hex_decoded(keys[keys.len() - 1]@) is Ok);
        }
    }
}

/// Whether keys are those that the texts spell, in their order.
pub open spec fn are_spelled(keys: Seq<Vec<u8>>, texts: Seq<String>) -> bool {
    &&& keys.len() == texts.len()
    &&& forall|i: int|
        0 <= i < texts.len() ==> hex_decoded((#[trigger] texts[i])@) == Ok::<Seq<u8>, HexError>(
            keys[i]@,
        )
}

/// Whether `r` gives the proofs of the keys that the texts spell, under the
/// node's root and each with its own key.
pub open spec fn proves_all<B: StateProofBackend + ?Sized>(
    r: BatchStateProofResponse,
    backend: &B,
    texts: Seq<String>,
) -> bool {
    &&& r.proof_version@ == "blake3-merkle-v1"@
    &&& r.encoding_format@ == "bcs-hex"@
    &&& exists|root: Blake3Digest|
        {
            &&& #[trigger] call_ensures(B::commitment_root, (backend,), Ok(root))
            &&& r.commitment_root@ == hex_encode(root.0@)
        }
    &&& exists|keys: Vec<Vec<u8>>, found: Vec<(Option<Vec<u8>>, MerkleProof)>|
        {
            &&& #[trigger] call_ensures(B::prove_keys, (backend, &keys), Ok(found))
            &&& are_spelled(keys@, texts)
            &&& texts.len() <= found@.len() ==> r.proofs@.len() == texts.len()
            &&& texts.len() > found@.len() ==> r.proofs@.len() == found@.len()
            &&& forall|i: int|
                0 <= i < r.proofs@.len() ==> {
                    &&& (#[trigger] r.proofs@[i]).key@ == texts[i]@
                    &&& spells_value(r.proofs@[i].value, found@[i].0)
                    &&& tells_of_proof(r.proofs@[i].proof, found@[i].1)
                }
        }
}

/// From one to a hundred keys are proved at once, each with its own proof and
/// in their order, and only where all of them are hexadecimal.
pub proof fn law_batches_prove_every_key<B: StateProofBackend + ?Sized>(
    backend: Option<&B>,
    req: BatchStateProofRequest,
    r: RpcResult<BatchStateProofResponse>,
)
    requires
        call_ensures(batch_state_proof::<B>, (backend, &req), r),
    ensures
        backend is None ==> is_unavailable(r, "state proofs not available"@),
        backend is Some && req.keys@.len() == 0 ==> is_bad_request(
            r,
            "keys array must not be empty"@,
        ),
        backend is Some && req.keys@.len() > 100 ==> is_bad_request(
            r,
            "at most "@ + decimal(100) + " keys per request"@,
        ),
        backend is Some && (exists|i: int|
            0 <= i < req.keys@.len() && hex_decoded((#[trigger] req.keys@[i])@) is Err)
            ==> r is Err && r->Err_0 is BadRequest,
        r is Ok ==> backend is Some && 1 <= req.keys@.len() <= 100 && proves_all(
            r->Ok_0,
            backend->Some_0,
            req.keys@,
        ),
        backend is Some && 1 <= req.keys@.len() <= 100 && (forall|i: int|
            0 <= i < req.keys@.len() ==> hex_decoded((#[trigger] req.keys@[i])@) is Ok) && r is Err
            ==> call_ensures(B::commitment_root, (backend->Some_0,), Err(r->Err_0)) || exists|
            keys: Vec<Vec<u8>>,
        |
            {
                &&& #[trigger] call_ensures(B::prove_keys, (backend->Some_0, &keys), Err(r->Err_0))
                &&& are_spelled(keys@, req.keys@)
            },
{
    lemma_keys_outcome(req.keys@);
    if backend is Some && 1 <= req.keys@.len() <= 100 && keys_outcome(req.keys@) is Ok {
        let b = backend->Some_0;
        let bytes = keys_outcome(req.keys@)->Ok_0;
        assert(keys_proved(r, b, req.keys@, bytes));
        let root = choose|root: RpcResult<Blake3Digest>|
            {
                &&& #[trigger] root_asked(b, root)
                &&& match root {
                    Err(e) => r is Err && r->Err_0 == e,
                    Ok(digest) => exists|answer: RpcResult<Vec<(Option<Vec<u8>>, MerkleProof)>>|
                        {
                            &&& #[trigger] proofs_asked(b, bytes, answer)
                            &&& match answer {
                                Err(e) => r is Err && r->Err_0 == e,
                                Ok(found) => {
                                    &&& r is Ok
                                    &&& r->Ok_0.commitment_root@ == hex_encode(digest@)
                                    &&& r->Ok_0.proof_version@ == "blake3-merkle-v1"@
                                    &&& r->Ok_0.encoding_format@ == "bcs-hex"@
                                    &&& pairs_proofs(r->Ok_0.proofs@, req.keys@, found@)
                                },
                            }
                        },
                }
            };
        if root is Ok {
            let digest = root->Ok_0;
            let answer = choose|answer: RpcResult<Vec<(Option<Vec<u8>>, MerkleProof)>>|
                {
                    &&& #[trigger] proofs_asked(b, bytes, answer)
                    &&& match answer {
                        Err(e) => r is Err && r->Err_0 == e,
                        Ok(found) => {
                            &&& r is Ok
                            &&& r->Ok_0.commitment_root@ == hex_encode(digest@)
                            &&& r->Ok_0.proof_version@ == "blake3-merkle-v1"@
                            &&& r->Ok_0.encoding_format@ == "bcs-hex"@
                            &&& pairs_proofs(r->Ok_0.proofs@, req.keys@, found@)
                        },
                    }
                };
            let keys = choose|k: Vec<Vec<u8>>|
                {
                    &&& #[trigger] call_ensures(B::prove_keys, (b, &k), answer)
                    &&& k@.map_values(|x: Vec<u8>| x@) == bytes
                };
            let views = keys@.map_values(|x: Vec<u8>| x@);
            assert(views.len() == keys@.len());
            assert forall|i: int| 0 <= i < req.keys@.len() implies hex_decoded(
                (#[trigger] req.keys@[i])@,
            ) == Ok::<Seq<u8>, HexError>(keys@[i]@) by {
                assert(views[i] == keys@[i]@);
            }
            assert(call_ensures(B::commitment_root, (b,), Ok(digest)));
            if answer is Ok {
                let found = answer->Ok_0;
                assert(call_ensures(B::prove_keys, (b, &keys), Ok(found)));
                assert forall|i: int| 0 <= i < r->Ok_0.proofs@.len() implies {
                    &&& (#[trigger] r->Ok_0.proofs@[i]).key@ == req.keys@[i]@
                    &&& spells_value(r->Ok_0.proofs@[i].value, found@[i].0)
                    &&& tells_of_proof(r->Ok_0.proofs@[i].proof, found@[i].1)
                } by {
                    lemma_proof(r->Ok_0.proofs@[i].proof, found@[i].1);
                }
            } else {
                assert(call_ensures(B::prove_keys, (b, &keys), Err(answer->Err_0)));
            }
        } else {
            assert(call_ensures(B::commitment_root, (b,), Err(root->Err_0)));
        }
    }
}

/// What is shown of consensus is what the node says of it.
pub proof fn law_consensus_is_shown_as_it_is<B: ConsensusBackend + ?Sized>(
    backend: Option<&B>,
    validators: RpcResult<Vec<ValidatorInfoDto>>,
    status: RpcResult<ConsensusStatusDto>,
    epoch: RpcResult<EpochInfoDto>,
    election: RpcResult<ElectionResultDto>,
    policy: RpcResult<RotationPolicyDto>,
    staking: RpcResult<StakingValidatorsResponse>,
    history: RpcResult<EpochHistoryResponse>,
)
    requires
        call_ensures(list_validators::<B>, (backend,), validators),
        call_ensures(consensus_status::<B>, (backend,), status),
        call_ensures(epoch_info::<B>, (backend,), epoch),
        call_ensures(election_result::<B>, (backend,), election),
        call_ensures(rotation_policy::<B>, (backend,), policy),
        call_ensures(staking_validators::<B>, (backend,), staking),
        call_ensures(epoch_history::<B>, (backend,), history),
    ensures
        backend is Some ==> {
            let b = backend->Some_0;
            &&& call_ensures(B::active_validators, (b,), validators)
            &&& call_ensures(B::consensus_status, (b,), status)
            &&& call_ensures(B::epoch_info, (b,), epoch)
            &&& call_ensures(B::election_result, (b,), election)
            &&& call_ensures(B::rotation_policy, (b,), policy)
            &&& call_ensures(B::staking_validators, (b,), staking)
            &&& call_ensures(B::epoch_history, (b,), history)
        },
        backend is None ==> {
            &&& is_unavailable(validators, "consensus service not available"@)
            &&& is_unavailable(status, "consensus service not available"@)
            &&& is_unavailable(epoch, "consensus service not available"@)
            &&& is_unavailable(election, "consensus service not available"@)
            &&& is_unavailable(policy, "consensus service not available"@)
            &&& is_unavailable(staking, "consensus service not available"@)
            &&& is_unavailable(history, "consensus service not available"@)
        },
{
}

/// What is shown of the network is what the node says of it.
pub proof fn law_the_network_is_shown_as_it_is<B: NetworkBackend + ?Sized>(
    backend: Option<&B>,
    peers: RpcResult<NetworkPeersResponse>,
    status: RpcResult<NetworkStatusResponse>,
    health: RpcResult<NetworkHealthResponse>,
)
    requires
        call_ensures(network_peers::<B>, (backend,), peers),
        call_ensures(network_status::<B>, (backend,), status),
        call_ensures(network_health::<B>, (backend,), health),
    ensures
        backend is Some ==> {
            let b = backend->Some_0;
            &&& call_ensures(B::network_peers, (b,), peers)
            &&& call_ensures(B::network_status, (b,), status)
            &&& call_ensures(B::network_health, (b,), health)
        },
        backend is None ==> {
            &&& is_unavailable(peers, "network backend not available"@)
            &&& is_unavailable(status, "network backend not available"@)
            &&& is_unavailable(health, "network backend not available"@)
        },
{
}

/// A validator is shown part by part.
pub proof fn law_validators_are_shown_part_by_part(v: ValidatorInfo, r: ValidatorInfoDto)
    requires
        call_ensures(ValidatorInfoDto::from, (v,), r),
    ensures
        r.index == v.index,
        r.public_key_hex@ == hex_encode(v.falcon_pub_key@),
        r.stake == v.stake,
        r.reputation == v.reputation.0,
        r.is_slashed == v.is_slashed,
        r.shard_id == v.shard_id,
{
}

/// An estimate is shown part by part.
pub proof fn law_estimates_are_shown_part_by_part(e: GasEstimate, r: GasEstimateDto)
    requires
        call_ensures(<GasEstimateDto as From<GasEstimate>>::from, (e,), r),
    ensures
        r.gas_units == e.gas_units,
        r.shards_touched == e.shards_touched,
        r.requires_cross_shard == e.requires_cross_shard,
{
}

/// Whether what is shown of a status is the status.
pub open spec fn tells_of_status(dto: ExecutionStatusDto, status: ExecutionStatus) -> bool {
    &&& dto is Success <==> status is Success
    &&& dto is MoveAbort <==> status is MoveAbort
    &&& status is MoveAbort ==> dto->location == status->location && dto->code == status->code
    &&& dto is OutOfGas <==> status is OutOfGas
    &&& dto is InvalidSignature <==> status is InvalidSignature
    &&& dto is SenderMismatch <==> status is SenderMismatch
    &&& dto is SequenceNumberMismatch <==> status is SequenceNumberMismatch
    &&& status is SequenceNumberMismatch ==> dto->expected == status->expected && dto->got
        == status->got
    &&& dto is Expired <==> status is Expired
    &&& dto is ChainIdMismatch <==> status is ChainIdMismatch
    &&& dto is HtlcLockNotFound <==> status is HtlcLockNotFound
    &&& dto is HtlcAlreadyClaimed <==> status is HtlcAlreadyClaimed
    &&& dto is HtlcAlreadyRefunded <==> status is HtlcAlreadyRefunded
    &&& dto is HtlcPreimageMismatch <==> status is HtlcPreimageMismatch
    &&& dto is HtlcRefundTooEarly <==> status is HtlcRefundTooEarly
}

/// A receipt is shown part by part, its status among them.
pub proof fn law_receipts_are_shown_part_by_part(
    status: ExecutionStatus,
    shown: ExecutionStatusDto,
    receipt: TransactionReceipt,
    r: TransactionReceiptDto,
)
    requires
        call_ensures(<ExecutionStatusDto as From<ExecutionStatus>>::from, (status,), shown),
        call_ensures(<TransactionReceiptDto as From<TransactionReceipt>>::from, (receipt,), r),
    ensures
        tells_of_status(shown, status),
        r.tx_digest == receipt.tx_digest,
        r.commit_seq == receipt.commit_seq,
        r.shard_id == receipt.shard_id,
        tells_of_status(r.status, receipt.status),
        r.gas_used == receipt.gas_used,
        r.timestamp == receipt.timestamp,
{
}

/// A member of an object is the first one with its name.
pub proof fn law_members_are_found_by_name(value: JsonValue, key: &str, r: Option<&JsonValue>)
    requires
        call_ensures(JsonValue::get, (&value, key), r),
    ensures
        !(value is Object) ==> r is None,
        value is Object ==> {
            let members = value->Object_0@;
            &&& r is None <==> forall|i: int|
                0 <= i < members.len() ==> (#[trigger] members[i]).0@ != key@
            &&& forall|i: int|
                0 <= i < members.len() && (#[trigger] members[i]).0@ == key@ && (forall|j: int|
                    0 <= j < i ==> (#[trigger] members[j]).0@ != key@) ==> r is Some && *r->Some_0
                    == members[i].1
        },
{
    if value is Object {
        lemma_member_from(value->Object_0@, key@, 0);
    }
}

proof fn lemma_member_from(members: Seq<(String, JsonValue)>, key: Seq<char>, at: int)
    requires
        0 <= at <= members.len(),
    ensures
        member_from(members, key, at) is None <==> forall|i: int|
            at <= i < members.len() ==> (#[trigger] members[i]).0@ != key,
        forall|i: int|
            at <= i < members.len() && (#[trigger] members[i]).0@ == key && (forall|j: int|
                at <= j < i ==> (#[trigger] members[j]).0@ != key) ==> member_from(members, key, at)
                == Some(members[i].1),
    decreases members.len() - at,
{
    if at < members.len() {
        lemma_member_from(members, key, at + 1);
        if members[at].0@ == key {
            assert forall|i: int|
                at <= i < members.len() && (#[trigger] members[i]).0@ == key && (forall|j: int|
                    at <= j < i ==> (#[trigger] members[j]).0@ != key) implies member_from(
                members,
                key,
                at,
            ) == Some(members[i].1) by {
                if i > at {
                    assert(members[at].0@ != key);
                }
            }
        }
    }
}

/// Text and whole numbers are read from values that are such.
pub proof fn law_values_are_read_by_kind(
    value: JsonValue,
    text: Option<&str>,
    number: Option<u64>,
)
    requires
        call_ensures(JsonValue::as_str, (&value,), text),
        call_ensures(JsonValue::as_u64, (&value,), number),
    ensures
        text is Some <==> value is Text,
        text is Some ==> text->Some_0@ == value->Text_0@,
        number is Some <==> value is Number && value->Number_0 is Unsigned,
        number is Some ==> number->Some_0 == value->Number_0->Unsigned_0,
{
}

/// A member that is text, or a whole number, is read as such.
pub proof fn law_members_are_read_by_kind(
    value: JsonValue,
    key: &str,
    found: Option<&JsonValue>,
    text: Option<&str>,
    number: Option<u64>,
)
    requires
        call_ensures(JsonValue::get, (&value, key), found),
        call_ensures(JsonValue::text_member, (&value, key), text),
        call_ensures(JsonValue::number_member, (&value, key), number),
    ensures
        text is Some <==> found is Some && *found->Some_0 is Text,
        text is Some ==> text->Some_0@ == (*found->Some_0)->Text_0@,
        number is Some <==> found is Some && *found->Some_0 is Number && (
        *found->Some_0)->Number_0 is Unsigned,
        number is Some ==> number->Some_0 == (*found->Some_0)->Number_0->Unsigned_0,
{
}

/// The answer to an intent tells of its plan part by part.
pub proof fn law_plans_are_shown_part_by_part(plan: CompiledIntentPlan, r: IntentSubmitResponse)
    requires
        call_ensures(IntentSubmitResponse::from, (plan,), r),
    ensures
        r.intent_id == plan.intent_id,
        r.steps == plan.steps@.len(),
        r.requires_htlc == plan.requires_htlc,
        r.estimated_gas == plan.estimated_gas,
        r.tx_hashes@.len() == plan.steps@.len(),
        forall|i: int|
            0 <= i < plan.steps@.len() ==> #[trigger] r.tx_hashes@[i] == plan.steps@[i].digest,
{
}

} // verus!
