//! Consensus, validators and epochs.

use vstd::prelude::*;

use crate::primitives::ValidatorIndex;
use crate::rpc::dto::{
    ConsensusStatusDto, ElectionResultDto, EpochAdvanceResponse, EpochHistoryResponse, EpochInfoDto, RotationPolicyDto, SlashValidatorResponse, StakingValidatorsResponse, ValidatorInfoDto,
};
use crate::rpc::error::{RpcError, RpcErrorView, RpcResult};
use crate::rpc::rest::backends::{not_available, ConsensusBackend};

verus! {

fn no_backend() -> (e: RpcError)
    ensures
        e@ == RpcErrorView::Unavailable("consensus service not available"@),
{
    RpcError::Unavailable("consensus service not available".to_owned())
}

/// `GET /v2/validators`: the validators that are not slashed.
pub fn list_validators<B: ConsensusBackend + ?Sized>(backend: Option<&B>) -> (r: RpcResult<Vec<ValidatorInfoDto>>)
    ensures
        match backend {
            None => not_available(r, "consensus service not available"@),
            Some(b) => call_ensures(B::active_validators, (b,), r),
        },
{
    match backend {
        None => Err(no_backend()),
        Some(b) => b.active_validators(),
    }
}

/// `GET /v2/validators/:index`: a validator.
pub fn get_validator<B: ConsensusBackend + ?Sized>(backend: Option<&B>, index: u32) -> (r: RpcResult<ValidatorInfoDto>)
    ensures
        match backend {
            None => not_available(r, "consensus service not available"@),
            Some(b) => call_ensures(B::validator_info, (b, ValidatorIndex(index)), r),
        },
{
    match backend {
        None => Err(no_backend()),
        Some(b) => b.validator_info(ValidatorIndex(index)),
    }
}

/// `GET /v2/consensus/status`: the status of the consensus engine.
pub fn consensus_status<B: ConsensusBackend + ?Sized>(backend: Option<&B>) -> (r: RpcResult<ConsensusStatusDto>)
    ensures
        match backend {
            None => not_available(r, "consensus service not available"@),
            Some(b) => call_ensures(B::consensus_status, (b,), r),
        },
{
    match backend {
        None => Err(no_backend()),
        Some(b) => b.consensus_status(),
    }
}

/// `GET /v2/consensus/epoch`: the current epoch.
pub fn epoch_info<B: ConsensusBackend + ?Sized>(backend: Option<&B>) -> (r: RpcResult<EpochInfoDto>)
    ensures
        match backend {
            None => not_available(r, "consensus service not available"@),
            Some(b) => call_ensures(B::epoch_info, (b,), r),
        },
{
    match backend {
        None => Err(no_backend()),
        Some(b) => b.epoch_info(),
    }
}

/// `GET /v2/consensus/election/latest`: the latest election.
pub fn election_result<B: ConsensusBackend + ?Sized>(backend: Option<&B>) -> (r: RpcResult<ElectionResultDto>)
    ensures
        match backend {
            None => not_available(r, "consensus service not available"@),
            Some(b) => call_ensures(B::election_result, (b,), r),
        },
{
    match backend {
        None => Err(no_backend()),
        Some(b) => b.election_result(),
    }
}

/// `GET /v2/consensus/rotation-policy`: the committee rotation policy.
pub fn rotation_policy<B: ConsensusBackend + ?Sized>(backend: Option<&B>) -> (r: RpcResult<RotationPolicyDto>)
    ensures
        match backend {
            None => not_available(r, "consensus service not available"@),
            Some(b) => call_ensures(B::rotation_policy, (b,), r),
        },
{
    match backend {
        None => Err(no_backend()),
        Some(b) => b.rotation_policy(),
    }
}

/// `GET /v2/staking/validators`: the staking records.
pub fn staking_validators<B: ConsensusBackend + ?Sized>(backend: Option<&B>) -> (r: RpcResult<StakingValidatorsResponse>)
    ensures
        match backend {
            None => not_available(r, "consensus service not available"@),
            Some(b) => call_ensures(B::staking_validators, (b,), r),
        },
{
    match backend {
        None => Err(no_backend()),
        Some(b) => b.staking_validators(),
    }
}

/// `GET /v2/admin/epoch/history`: the epoch transitions so far.
pub fn epoch_history<B: ConsensusBackend + ?Sized>(backend: Option<&B>) -> (r: RpcResult<EpochHistoryResponse>)
    ensures
        match backend {
            None => not_available(r, "consensus service not available"@),
            Some(b) => call_ensures(B::epoch_history, (b,), r),
        },
{
    match backend {
        None => Err(no_backend()),
        Some(b) => b.epoch_history(),
    }
}

/// `POST /v2/admin/epoch/advance`: advances the epoch by hand.
pub fn advance_epoch<B: ConsensusBackend + ?Sized>(backend: Option<&B>, reason: &str) -> (r: RpcResult<EpochAdvanceResponse>)
    ensures
        match backend {
            None => not_available(r, "consensus service not available"@),
            Some(b) => call_ensures(B::advance_epoch, (b, reason), r),
        },
{
    match backend {
        None => Err(no_backend()),
        Some(b) => b.advance_epoch(reason),
    }
}

/// `POST /v2/admin/validator/slash`: slashes a validator.
pub fn slash_validator<B: ConsensusBackend + ?Sized>(backend: Option<&B>, validator_index: u32, reason: &str) -> (r: RpcResult<SlashValidatorResponse>)
    ensures
        match backend {
            None => not_available(r, "consensus service not available"@),
            Some(b) => call_ensures(B::slash_validator, (b, ValidatorIndex(validator_index), reason), r),
        },
{
    match backend {
        None => Err(no_backend()),
        Some(b) => b.slash_validator(ValidatorIndex(validator_index), reason),
    }
}

} // verus!
