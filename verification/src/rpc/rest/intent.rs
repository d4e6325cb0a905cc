//! Intents.
//!
//! Submitting an intent alternates between work outside and decisions here: the
//! intent is compiled, the transactions of its plan are broadcast one after the
//! other, and then the intent is registered and announced.

use vstd::prelude::*;
use vstd::string::*;

use crate::primitives::text::join3;
use crate::primitives::{Blake3Digest, IntentId, TxDigest};
use crate::rpc::agent::IntentStatus;
use crate::rpc::dto::{
    step_digests, CompiledIntentPlan, GasEstimate, GasEstimateDto, IntentStatusDto,
    IntentSubmitResponse,
};
use crate::rpc::error::{message_of, RpcError, RpcErrorView, RpcResult};
use crate::rpc::intent_tracker::IntentTracker;
use crate::rpc::rest::{exact_outcome, parse_exact_digest};

verus! {

/// What to do next for a submitted intent.
#[derive(Debug)]
pub enum SubmitAction {
    /// Broadcast the transaction of the step with this number and report how
    /// that went.
    Broadcast(usize),
    /// Reply, and register and announce as said.
    Finish(SubmitReply),
}

/// How a submitted intent is answered.
#[derive(Debug)]
pub struct SubmitReply {
    /// The reply to the client.
    pub reply: RpcResult<IntentSubmitResponse>,
    /// The intent to register with the digests of its transactions.
    pub register: Option<(IntentId, Vec<TxDigest>)>,
    /// The change of status to announce.
    pub event: Option<IntentStatusDto>,
}

/// A submitted intent that was compiled, with the number of steps that were
/// broadcast.
#[derive(Debug)]
pub struct IntentSubmission {
    /// The compiled intent.
    pub plan: CompiledIntentPlan,
    /// Number of steps that were broadcast.
    pub sent: usize,
}

impl IntentSubmission {
    /// No more steps were broadcast than there are.
    pub open spec fn wf(&self) -> bool {
        self.sent <= self.plan.steps@.len()
    }
}

/// Whether `finish` reports a failure and neither registers nor announces
/// anything.
pub open spec fn only_fails(finish: SubmitReply, e: RpcErrorView) -> bool {
    &&& finish.reply is Err
    &&& finish.reply->Err_0@ == e
    &&& finish.register is None
    &&& finish.event is None
}

/// Whether `finish` answers an intent whose plan was broadcast.
pub open spec fn answers_plan(finish: SubmitReply, plan: CompiledIntentPlan) -> bool {
    &&& finish.reply is Ok
    &&& finish.reply->Ok_0.intent_id == plan.intent_id
    &&& finish.reply->Ok_0.steps == plan.steps@.len()
    &&& finish.reply->Ok_0.tx_hashes@ == step_digests(plan.steps@)
    &&& finish.reply->Ok_0.requires_htlc == plan.requires_htlc
    &&& finish.reply->Ok_0.estimated_gas == plan.estimated_gas
    &&& finish.register is Some
    &&& finish.register->Some_0.0 == plan.intent_id
    &&& finish.register->Some_0.1@ == step_digests(plan.steps@)
    &&& finish.event == Some(
        IntentStatusDto {
            intent_id: plan.intent_id,
            status: IntentStatus::Submitted { steps: plan.steps@.len() as usize },
        },
    )
}

/// Whether `finish` answers an intent that could not be compiled: the failure
/// is reported and announced.
pub open spec fn answers_failure(finish: SubmitReply, intent_id: IntentId, e: RpcError) -> bool {
    &&& finish.reply is Err
    &&& finish.reply->Err_0 == e
    &&& finish.register is None
    &&& finish.event is Some
    &&& finish.event->Some_0.intent_id == intent_id
    &&& finish.event->Some_0.status is Failed
    &&& finish.event->Some_0.status->reason@ == message_of(e@)
}

/// Whether `action` is what comes after `sent` steps of the plan were
/// broadcast: the next step, or the answer where there is none.
pub open spec fn continues(action: SubmitAction, plan: CompiledIntentPlan, sent: usize) -> bool {
    if sent < plan.steps@.len() {
        action is Broadcast && action->Broadcast_0 == sent
    } else {
        action is Finish && answers_plan(action->Finish_0, plan)
    }
}

fn failure(e: RpcError) -> (r: SubmitAction)
    ensures
        r is Finish,
        r->Finish_0.reply is Err,
        r->Finish_0.reply->Err_0 == e,
        only_fails(r->Finish_0, e@),
{
    SubmitAction::Finish(SubmitReply { reply: Err(e), register: None, event: None })
}

fn plan_digests(plan: &CompiledIntentPlan) -> (r: Vec<TxDigest>)
    ensures
        r@ == step_digests(plan.steps@),
{
    let mut out: Vec<TxDigest> = Vec::new();
    let mut i: usize = 0;
    while i < plan.steps.len()
        invariant
            0 <= i <= plan.steps@.len(),
            out@.len() == i,
            forall|j: int| 0 <= j < i ==> out@[j] == plan.steps@[j].digest,
        decreases plan.steps@.len() - i,
    {
        out.push(plan.steps[i].digest);
        i = i + 1;
    }
    assert(out@ =~= step_digests(plan.steps@));
    out
}

fn proceed(plan: &CompiledIntentPlan, sent: usize) -> (r: SubmitAction)
    ensures
        continues(r, *plan, sent),
{
    if sent < plan.steps.len() {
        return SubmitAction::Broadcast(sent);
    }
    SubmitAction::Finish(
        SubmitReply {
            reply: Ok(
                IntentSubmitResponse {
                    intent_id: plan.intent_id,
                    steps: plan.steps.len(),
                    tx_hashes: plan_digests(plan),
                    requires_htlc: plan.requires_htlc,
                    estimated_gas: plan.estimated_gas,
                },
            ),
            register: Some((plan.intent_id, plan_digests(plan))),
            event: Some(
                IntentStatusDto {
                    intent_id: plan.intent_id,
                    status: IntentStatus::Submitted { steps: plan.steps.len() },
                },
            ),
        },
    )
}

/// `POST /v2/intent/submit`: whether an intent can be compiled at all.
pub fn submit_intent(has_backend: bool) -> (r: RpcResult<()>)
    ensures
        has_backend ==> r is Ok,
        !has_backend ==> r is Err && r->Err_0@ == RpcErrorView::Unavailable(
            "intent service not available"@,
        ),
{
    if has_backend {
        Ok(())
    } else {
        Err(RpcError::Unavailable("intent service not available".to_owned()))
    }
}

impl IntentSubmission {
    /// What to do after the intent was compiled with the outcome `outcome`.
    /// The submission is there where steps have to be broadcast.
    pub fn compiled(
        intent_id: IntentId,
        outcome: RpcResult<CompiledIntentPlan>,
        has_broadcaster: bool,
    ) -> (r: (Option<IntentSubmission>, SubmitAction))
        ensures
            match outcome {
                Err(e) => {
                    &&& r.0 is None
                    &&& r.1 is Finish
                    &&& answers_failure(r.1->Finish_0, intent_id, e)
                },
                Ok(plan) => if has_broadcaster {
                    &&& r.0 == Some(IntentSubmission { plan, sent: 0 })
                    &&& continues(r.1, plan, 0)
                } else {
                    &&& r.0 is None
                    &&& r.1 is Finish
                    &&& only_fails(
                        r.1->Finish_0,
                        RpcErrorView::Unavailable("transaction broadcast service not available"@),
                    )
                },
            },
    {
        match outcome {
            Err(e) => {
                let reason = e.to_string();
                let event = IntentStatusDto { intent_id, status: IntentStatus::Failed { reason } };
                (
                    None,
                    SubmitAction::Finish(
                        SubmitReply { reply: Err(e), register: None, event: Some(event) },
                    ),
                )
            },
            Ok(plan) => {
                if has_broadcaster {
                    let action = proceed(&plan, 0);
                    (Some(IntentSubmission { plan, sent: 0 }), action)
                } else {
                    (
                        None,
                        failure(
                            RpcError::Unavailable(
                                "transaction broadcast service not available".to_owned(),
                            ),
                        ),
                    )
                }
            },
        }
    }

    /// What to do after the broadcast of the next step ended with `outcome`.
    /// A step that cannot be encoded or broadcast ends the submission.
    pub fn broadcast(&mut self, outcome: RpcResult<()>) -> (r: SubmitAction)
        requires
            old(self).wf(),
            old(self).sent < old(self).plan.steps@.len(),
        ensures
            final(self).wf(),
            final(self).plan == old(self).plan,
            match outcome {
                Ok(()) => {
                    &&& final(self).sent == old(self).sent + 1
                    &&& continues(r, old(self).plan, final(self).sent)
                },
                Err(e) => {
                    &&& final(self).sent == old(self).sent
                    &&& r is Finish
                    &&& r->Finish_0.reply is Err
                    &&& r->Finish_0.reply->Err_0 == e
                    &&& only_fails(r->Finish_0, e@)
                },
            },
    {
        match outcome {
            Ok(()) => {
                let total: usize = self.plan.steps.len();
                assert(self.sent < total);
                self.sent = self.sent + 1;
                proceed(&self.plan, self.sent)
            },
            Err(e) => failure(e),
        }
    }
}

/// An intent is registered and announced as submitted only when all of its
/// transactions were broadcast.
pub proof fn law_registered_intents_were_broadcast(
    action: SubmitAction,
    plan: CompiledIntentPlan,
    sent: usize,
)
    requires
        continues(action, plan, sent),
        action is Finish,
    ensures
        sent >= plan.steps@.len(),
        action->Finish_0.register is Some,
        action->Finish_0.reply is Ok,
{
}

/// `POST /v2/intent/estimate-gas`: the reply where the backend estimated
/// `estimate`, or where there is no backend.
pub fn estimate_gas(estimate: Option<RpcResult<GasEstimate>>) -> (r: RpcResult<GasEstimateDto>)
    ensures
        match estimate {
            None => r is Err && r->Err_0@ == RpcErrorView::Unavailable(
                "intent service not available"@,
            ),
            Some(Err(e)) => r is Err && r->Err_0 == e,
            Some(Ok(estimate)) => r is Ok && r->Ok_0 == (GasEstimateDto {
                gas_units: estimate.gas_units,
                shards_touched: estimate.shards_touched,
                requires_cross_shard: estimate.requires_cross_shard,
            }),
        },
{
    match estimate {
        None => Err(RpcError::Unavailable("intent service not available".to_owned())),
        Some(Err(e)) => Err(e),
        Some(Ok(estimate)) => Ok(GasEstimateDto::from(estimate)),
    }
}

/// `GET /v2/intent/:id/status`: how far an intent has come.
pub fn intent_status(tracker: Option<&IntentTracker>, id: &str) -> (r: RpcResult<IntentStatusDto>)
    requires
        tracker is Some ==> tracker->Some_0.wf(),
    ensures
        match tracker {
            None => r is Err && r->Err_0@ == RpcErrorView::Unavailable(
                "intent tracking not available"@,
            ),
            Some(t) => match exact_outcome(id@, "invalid intent id: "@) {
                Err(e) => r is Err && r->Err_0@ == e,
                Ok(bytes) => if t@.intents.dom().contains(bytes) {
                    &&& r is Ok
                    &&& r->Ok_0.intent_id == t@.intents[bytes].intent_id
                    &&& r->Ok_0.status == t@.intents[bytes].status
                } else {
                    r is Err && r->Err_0@ == RpcErrorView::NotFound(
                        "intent "@ + id@ + " not tracked"@,
                    )
                },
            },
        },
{
    let t = match tracker {
        Some(t) => t,
        None => {
            return Err(RpcError::Unavailable("intent tracking not available".to_owned()));
        },
    };
    let intent_id: Blake3Digest = match parse_exact_digest(id, "invalid intent id: ") {
        Ok(digest) => digest,
        Err(e) => {
            return Err(e);
        },
    };
    match t.status(&intent_id) {
        Some(record) => Ok(
            IntentStatusDto { intent_id: record.intent_id, status: record.status },
        ),
        None => Err(RpcError::NotFound(join3("intent ", id, " not tracked"))),
    }
}

} // verus!
