//! What holds of every run, whatever the answers are.
//!
//! A run is seen as the sequence of what it led to: the opening, and then one [`Progress`] for
//! each answer.

use vstd::prelude::*;

use crate::orchestrator::ToolOrchestrator;
use crate::sandboxing::ActiveNetworkApproval;
use crate::sandboxing::ApprovalCtx;
use crate::sandboxing::AskForApproval;
use crate::sandboxing::ExecApprovalRequirement;
use crate::sandboxing::NetworkApprovalContext;
use crate::sandboxing::NetworkApprovalMode;
use crate::sandboxing::PermissionRequestDecision;
use crate::sandboxing::ReviewDecision;
use crate::sandboxing::SandboxAttempt;
use crate::sandboxing::SandboxDenial;
use crate::sandboxing::SandboxOverride;
use crate::sandboxing::SandboxType;
use crate::sandboxing::ToolDecisionSource;
use crate::sandboxing::ToolError;
use crate::sandboxing::ToolTypes;
use crate::sandboxing::TurnContext;
use crate::step::ApprovalStage;
use crate::step::AskExecApprovalRequirement;
use crate::step::AskIntoDeferred;
use crate::step::AttemptStage;
use crate::step::OrchestratorRunResult;
use crate::step::Progress;
use crate::step::Run;
use crate::step::Step;

verus! {

/// Some answer to the question of `step` leads to `p`.
pub open spec fn leads_to<'a, T: ToolTypes>(step: Step<'a, T>, p: Progress<'a, T>) -> bool {
    match step {
        Step::ExecApprovalRequirement(q) => exists|a: Option<ExecApprovalRequirement>|
            q.answered(a, p),
        Step::DefaultRequirement(q) => exists|a: ExecApprovalRequirement| q.answered(a, p),
        Step::GuardianReviewId(q) => exists|a: String| q.answered(a, p),
        Step::PermissionRequestPayload(q) => exists|a: Option<T::PermissionRequest>|
            q.answered(a, p),
        Step::PermissionRequestHooks(_, q) => exists|a: Option<PermissionRequestDecision>|
            q.answered(a, p),
        Step::Approval(q) => exists|a: ReviewDecision<T>| q.answered(a, p),
        Step::GuardianRejectionMessage(q) => exists|a: String| q.answered(a, p),
        Step::GuardianTimeoutMessage(q) => exists|a: String| q.answered(a, p),
        Step::SandboxOverride(q) => exists|a: SandboxOverride| q.answered(a, p),
        Step::InitialSandbox(q) => exists|a: SandboxType<T>| q.answered(a, p),
        Step::BeginNetworkApproval(q) => exists|a: Option<ActiveNetworkApproval<T>>|
            q.answered(a, p),
        Step::Attempt(q) => exists|a: Result<T::Out, ToolError<T>>| q.answered(a, p),
        Step::FinishImmediate(_, q) => exists|a: Result<(), ToolError<T>>| q.answered(a, p),
        Step::IntoDeferred(_, q) => exists|a: Option<T::DeferredNetworkApproval>| q.answered(a, p),
        Step::FinishDeferred(_, q) => q.answered(p),
        Step::RefreshInbox(q) => q.answered(p),
        Step::RetryBlocked(q) => exists|a: Option<ToolError<T>>| q.answered(a, p),
        Step::NetworkApprovalContext(q) => exists|a: Option<NetworkApprovalContext<T>>|
            q.answered(a, p),
        Step::EscalateOnFailure(q) => exists|a: bool| q.answered(a, p),
        Step::WantsNoSandboxApproval(q) => exists|a: bool| q.answered(a, p),
        Step::NetworkPromptRequirement(q) => exists|a: ExecApprovalRequirement| q.answered(a, p),
        Step::BypassApproval(q) => exists|a: bool| q.answered(a, p),
        Step::Done(_) => false,
    }
}

/// `trace` is the beginning of a run, or all of it.
pub open spec fn is_trace<'a, T: ToolTypes>(run: Run<'a, T>, trace: Seq<Progress<'a, T>>) -> bool {
    &&& trace.len() > 0
    &&& trace[0].goes_to(Step::ExecApprovalRequirement(AskExecApprovalRequirement { run }))
    &&& forall|i: int| 0 <= i < trace.len() - 1 ==> leads_to(#[trigger] trace[i].next, trace[i + 1])
}

/// What the orchestrator opens a run with is the beginning of a run.
pub proof fn law_opening_is_a_trace<'a, T: ToolTypes>(
    orchestrator: &'a ToolOrchestrator<T>,
    turn: &'a TurnContext<T>,
    tool_name: &'a str,
    call_id: &'a str,
    approval_policy: &'a AskForApproval<T>,
    use_guardian: bool,
    p: Progress<'a, T>,
)
    requires
        p.goes_to(
            orchestrator.opening_step(turn, tool_name, call_id, approval_policy, use_guardian),
        ),
    ensures
        is_trace(
            Run {
                manager: &orchestrator.sandbox,
                turn,
                tool_name,
                call_id,
                approval_policy,
                use_guardian,
            },
            seq![p],
        ),
{
}

/// Every answer takes a run one step on.
pub proof fn law_answer_extends_a_trace<'a, T: ToolTypes>(
    run: Run<'a, T>,
    trace: Seq<Progress<'a, T>>,
    p: Progress<'a, T>,
)
    requires
        is_trace(run, trace),
        leads_to(trace.last().next, p),
    ensures
        is_trace(run, trace.push(p)),
{
    let longer = trace.push(p);
    assert forall|i: int| 0 <= i < longer.len() - 1 implies leads_to(
        #[trigger] longer[i].next,
        longer[i + 1],
    ) by {
        assert(longer[i] == trace[i]);
        if i + 1 < trace.len() {
            assert(leads_to(trace[i].next, trace[i + 1]));
        }
    }
}

/// How far a run has come at `step`.
pub open spec fn rank<T: ToolTypes>(step: Step<'_, T>) -> int {
    match step {
        Step::ExecApprovalRequirement(_) => 0,
        Step::DefaultRequirement(_) => 1,
        Step::GuardianReviewId(q) => 2 + approval_offset(q.stage),
        Step::PermissionRequestPayload(q) => 3 + approval_offset(q.stage),
        Step::PermissionRequestHooks(_, q) => 4 + approval_offset(q.stage),
        Step::Approval(q) => 5 + approval_offset(q.stage),
        Step::GuardianRejectionMessage(q) => 6 + approval_offset(q.stage),
        Step::GuardianTimeoutMessage(q) => 6 + approval_offset(q.stage),
        Step::SandboxOverride(_) => 7,
        Step::InitialSandbox(_) => 8,
        Step::BeginNetworkApproval(q) => 9 + attempt_offset(q.stage),
        Step::Attempt(q) => 10 + attempt_offset(q.stage),
        Step::FinishImmediate(_, q) => 11 + attempt_offset(q.stage),
        Step::IntoDeferred(_, q) => 11 + attempt_offset(q.stage),
        Step::FinishDeferred(_, q) => 12 + attempt_offset(q.stage),
        Step::RefreshInbox(_) => 13,
        Step::RetryBlocked(_) => 14,
        Step::NetworkApprovalContext(_) => 15,
        Step::EscalateOnFailure(_) => 16,
        Step::WantsNoSandboxApproval(_) => 17,
        Step::NetworkPromptRequirement(_) => 18,
        Step::BypassApproval(_) => 19,
        Step::Done(_) => 29,
    }
}

/// How much later the approval of the second attempt comes than that of the first.
pub open spec fn approval_offset(stage: ApprovalStage) -> int {
    match stage {
        ApprovalStage::First => 0,
        ApprovalStage::Retry => 18,
    }
}

/// How much later the second attempt comes than the first.
pub open spec fn attempt_offset(stage: AttemptStage) -> int {
    match stage {
        AttemptStage::First { .. } => 0,
        AttemptStage::Retry => 16,
    }
}

proof fn lemma_rank_grows<'a, T: ToolTypes>(step: Step<'a, T>, p: Progress<'a, T>)
    requires
        leads_to(step, p),
    ensures
        0 <= rank(step) < rank(p.next) <= 29,
{
}

pub(crate) proof fn lemma_rank_at<'a, T: ToolTypes>(run: Run<'a, T>, trace: Seq<Progress<'a, T>>, i: int, j: int)
    requires
        is_trace(run, trace),
        0 <= i <= j < trace.len(),
    ensures
        rank(trace[i].next) + (j - i) <= rank(trace[j].next) <= 29,
        0 <= rank(trace[i].next),
    decreases j - i,
{
    if i < j {
        lemma_rank_at(run, trace, i, j - 1);
        assert(leads_to(trace[j - 1].next, trace[j - 1 + 1]));
        lemma_rank_grows(trace[j - 1].next, trace[j]);
    }
}

/// Every run ends: no run goes on for more than twenty-nine answers.
pub proof fn law_run_ends<'a, T: ToolTypes>(run: Run<'a, T>, trace: Seq<Progress<'a, T>>)
    requires
        is_trace(run, trace),
    ensures
        trace.len() <= 30,
{
    lemma_rank_at(run, trace, 0, trace.len() - 1);
}

/// Nothing follows the end of a run.
pub proof fn law_end_is_last<'a, T: ToolTypes>(
    run: Run<'a, T>,
    trace: Seq<Progress<'a, T>>,
    i: int,
)
    requires
        is_trace(run, trace),
        0 <= i < trace.len(),
        trace[i].next is Done,
    ensures
        i == trace.len() - 1,
{
    lemma_rank_at(run, trace, i, trace.len() - 1);
}

/// A run makes at most two attempts: of any two, the earlier is the first attempt and the later
/// is the retry.
pub proof fn law_at_most_two_attempts<'a, T: ToolTypes>(
    run: Run<'a, T>,
    trace: Seq<Progress<'a, T>>,
    i: int,
    j: int,
)
    requires
        is_trace(run, trace),
        0 <= i < j < trace.len(),
        trace[i].next is Attempt,
        trace[j].next is Attempt,
    ensures
        trace[i].next->Attempt_0.stage is First,
        trace[j].next->Attempt_0.stage is Retry,
{
    lemma_rank_at(run, trace, i, j);
}

/// `step` belongs to `run`, and any attempt in it is one of the two that the run can make.
pub open spec fn belongs_to<'a, T: ToolTypes>(run: Run<'a, T>, step: Step<'a, T>) -> bool {
    match step {
        Step::ExecApprovalRequirement(q) => q.run == run,
        Step::DefaultRequirement(q) => q.run == run,
        Step::GuardianReviewId(q) => q.run == run && run.use_guardian && reason_fits(
            q.stage,
            q.retry_reason,
            q.network_approval_context,
        ),
        Step::PermissionRequestPayload(q) => q.run == run && prompt_fits(
            run,
            q.stage,
            q.approval_ctx,
        ),
        Step::PermissionRequestHooks(_, q) => q.run == run && prompt_fits(
            run,
            q.stage,
            q.approval_ctx,
        ),
        Step::Approval(q) => q.run == run && prompt_fits(run, q.stage, q.approval_ctx),
        Step::GuardianRejectionMessage(q) => true,
        Step::GuardianTimeoutMessage(q) => true,
        Step::SandboxOverride(q) => q.run == run,
        Step::InitialSandbox(q) => q.run == run,
        Step::BeginNetworkApproval(q) => q.run == run && attempt_fits(run, q.stage, q.attempt),
        Step::Attempt(q) => q.run == run && attempt_fits(run, q.stage, q.attempt),
        Step::FinishImmediate(_, q) => q.run == run,
        Step::IntoDeferred(_, q) => q.run == run,
        Step::FinishDeferred(_, q) => q.run == run,
        Step::RefreshInbox(q) => q.denied.run == run,
        Step::RetryBlocked(q) => q.denied.run == run,
        Step::NetworkApprovalContext(q) => q.denied.run == run && run.turn.network is Some
            && q.denied.denial.network_policy_decision is Some,
        Step::EscalateOnFailure(q) => q.denied.run == run && context_fits(
            q.denied.denial,
            q.network_approval_context,
        ),
        Step::WantsNoSandboxApproval(q) => q.denied.run == run && context_fits(
            q.denied.denial,
            q.network_approval_context,
        ),
        Step::NetworkPromptRequirement(q) => q.denied.run == run && run.approval_policy
            is OnRequest && q.denied.denial.network_policy_decision is Some,
        Step::BypassApproval(q) => q.denied.run == run && context_fits(
            q.denied.denial,
            q.network_approval_context,
        ),
        Step::Done(_) => true,
    }
}

/// There is a network access to prompt for exactly where the network policy had a part in the
/// denial.
pub open spec fn context_fits<T: ToolTypes>(
    denial: SandboxDenial<T>,
    network_approval_context: Option<NetworkApprovalContext<T>>,
) -> bool {
    denial.network_policy_decision is Some <==> network_approval_context is Some
}

/// `attempt` is what `run` makes at `stage`: the first in some sandbox under the policies of the
/// turn, the retry without one.
pub open spec fn attempt_fits<'a, T: ToolTypes>(
    run: Run<'a, T>,
    stage: AttemptStage,
    attempt: SandboxAttempt<'a, T>,
) -> bool {
    match stage {
        AttemptStage::First { .. } => attempt == run.first_attempt(attempt.sandbox),
        AttemptStage::Retry => attempt == run.escalated_attempt(),
    }
}

/// A prompt about the first attempt is about no network access in particular; one about the retry
/// names the network access that it is about, or says that the command failed.
pub open spec fn reason_fits<T: ToolTypes>(
    stage: ApprovalStage,
    retry_reason: Option<String>,
    network_approval_context: Option<NetworkApprovalContext<T>>,
) -> bool {
    match stage {
        ApprovalStage::First => network_approval_context is None,
        ApprovalStage::Retry => crate::step::text_of(retry_reason) == Some(
            crate::orchestrator::retry_reason(network_approval_context),
        ),
    }
}

/// The prompt has the identifier of a review exactly where the guardian reviews, and a reason that
/// fits.
pub open spec fn prompt_fits<'a, T: ToolTypes>(
    run: Run<'a, T>,
    stage: ApprovalStage,
    approval_ctx: ApprovalCtx<T>,
) -> bool {
    &&& approval_ctx.guardian_review_id is Some <==> run.use_guardian
    &&& reason_fits(stage, approval_ctx.retry_reason, approval_ctx.network_approval_context)
}

proof fn lemma_step_belongs_to<'a, T: ToolTypes>(
    run: Run<'a, T>,
    step: Step<'a, T>,
    p: Progress<'a, T>,
)
    requires
        belongs_to(run, step),
        leads_to(step, p),
    ensures
        belongs_to(run, p.next),
{
}

pub(crate) proof fn lemma_belongs_to<'a, T: ToolTypes>(
    run: Run<'a, T>,
    trace: Seq<Progress<'a, T>>,
    j: int,
)
    requires
        is_trace(run, trace),
        0 <= j < trace.len(),
    ensures
        belongs_to(run, trace[j].next),
    decreases j,
{
    if j > 0 {
        lemma_belongs_to(run, trace, j - 1);
        assert(leads_to(trace[j - 1].next, trace[j - 1 + 1]));
        lemma_step_belongs_to(run, trace[j - 1].next, trace[j]);
    }
}

/// Every attempt runs under the policies of its turn. The first has the turn's helper program,
/// and the second, which has neither sandbox nor helper program, differs in nothing else.
pub proof fn law_attempts_keep_the_turns_policies<'a, T: ToolTypes>(
    run: Run<'a, T>,
    trace: Seq<Progress<'a, T>>,
    j: int,
)
    requires
        is_trace(run, trace),
        0 <= j < trace.len(),
        trace[j].next is Attempt,
    ensures
        attempt_fits(run, trace[j].next->Attempt_0.stage, trace[j].next->Attempt_0.attempt),
{
    lemma_belongs_to(run, trace, j);
}

/// Every prompt goes to the guardian under an identifier where the guardian reviews, and to the
/// user where it does not, and says what it is about.
pub proof fn law_prompts_say_what_they_are_about<'a, T: ToolTypes>(
    run: Run<'a, T>,
    trace: Seq<Progress<'a, T>>,
    j: int,
)
    requires
        is_trace(run, trace),
        0 <= j < trace.len(),
        trace[j].next is Approval,
    ensures
        prompt_fits(run, trace[j].next->Approval_0.stage, trace[j].next->Approval_0.approval_ctx),
{
    lemma_belongs_to(run, trace, j);
}

/// The inbox is read right before the tool is asked whether external feedback stops the retry.
pub proof fn law_inbox_is_read_before_a_retry<'a, T: ToolTypes>(
    run: Run<'a, T>,
    trace: Seq<Progress<'a, T>>,
    j: int,
)
    requires
        is_trace(run, trace),
        0 <= j < trace.len(),
        trace[j].next is RetryBlocked,
    ensures
        j > 0,
        trace[j - 1].next is RefreshInbox,
{
    assert(leads_to(trace[j - 1].next, trace[j - 1 + 1]));
}

/// Between `i` and `j`, both included, a decision that permits the call was recorded.
pub open spec fn permit_recorded<T: ToolTypes>(
    trace: Seq<Progress<'_, T>>,
    i: int,
    j: int,
) -> bool {
    exists|k: int|
        i <= k <= j && (#[trigger] trace[k].record matches Some(record)
            && record.decision.permits())
}

/// At `i` the first attempt was made.
pub open spec fn first_attempt_at<T: ToolTypes>(trace: Seq<Progress<'_, T>>, i: int) -> bool {
    trace[i].next matches Step::Attempt(q) && q.stage is First
}

/// At `i` the tool was asked about external feedback, and it did not block the retry.
pub open spec fn not_blocked_at<T: ToolTypes>(trace: Seq<Progress<'_, T>>, i: int) -> bool {
    trace[i].next matches Step::RetryBlocked(q) && q.answered(None, trace[i + 1])
}

/// At `i` the tool agreed to escalate.
pub open spec fn escalated_at<T: ToolTypes>(trace: Seq<Progress<'_, T>>, i: int) -> bool {
    trace[i].next matches Step::EscalateOnFailure(q) && q.answered(true, trace[i + 1])
}

/// At `i` it was settled that an attempt without a sandbox may be asked for: the policy lets the
/// tool do so, or the policy is `OnRequest` and the default is to prompt for the network access.
pub open spec fn policy_allowed_at<T: ToolTypes>(
    run: Run<'_, T>,
    trace: Seq<Progress<'_, T>>,
    i: int,
) -> bool {
    match trace[i].next {
        Step::WantsNoSandboxApproval(q) => q.answered(true, trace[i + 1]),
        Step::NetworkPromptRequirement(q) => run.approval_policy is OnRequest
            && exists|a: ExecApprovalRequirement|
            a is NeedsApproval && #[trigger] q.answered(a, trace[i + 1]),
        _ => false,
    }
}

/// The approval of the retry was settled after `i` and by `j`: by the approval that was there
/// already, where the network policy had no part in the denial, or by a new one.
pub open spec fn retry_approved<T: ToolTypes>(
    trace: Seq<Progress<'_, T>>,
    i: int,
    j: int,
) -> bool {
    &&& trace[i].next matches Step::BypassApproval(q)
    &&& permit_recorded(trace, i + 1, j) || (q.denied.denial.network_policy_decision is None
        && q.network_approval_context is None && q.answered(true, trace[i + 1]))
}

/// At `i` an attempt met `denial`, in the call itself or when its network approval was finished.
pub open spec fn denial_at<T: ToolTypes>(
    trace: Seq<Progress<'_, T>>,
    i: int,
    denial: SandboxDenial<T>,
) -> bool {
    match trace[i].next {
        Step::Attempt(q) => q.answered(Err(ToolError::SandboxDenied(denial)), trace[i + 1]),
        Step::FinishImmediate(_, q) => q.answered(
            Err(ToolError::SandboxDenied(denial)),
            trace[i + 1],
        ),
        _ => false,
    }
}

/// The denial that `step` carries, if it carries one.
spec fn carried_denial<T: ToolTypes>(step: Step<'_, T>) -> Option<SandboxDenial<T>> {
    match step {
        Step::FinishImmediate(_, q) => match q.run_result {
            Err(ToolError::SandboxDenied(denial)) => Some(denial),
            _ => None,
        },
        Step::IntoDeferred(_, q) => match q.run_result {
            Err(ToolError::SandboxDenied(denial)) => Some(denial),
            _ => None,
        },
        Step::FinishDeferred(_, q) => match q.error {
            ToolError::SandboxDenied(denial) => Some(denial),
            _ => None,
        },
        Step::RefreshInbox(q) => Some(q.denied.denial),
        Step::RetryBlocked(q) => Some(q.denied.denial),
        Step::NetworkApprovalContext(q) => Some(q.denied.denial),
        Step::EscalateOnFailure(q) => Some(q.denied.denial),
        Step::WantsNoSandboxApproval(q) => Some(q.denied.denial),
        Step::NetworkPromptRequirement(q) => Some(q.denied.denial),
        Step::BypassApproval(q) => Some(q.denied.denial),
        _ => None,
    }
}

proof fn lemma_carried_denial<'a, T: ToolTypes>(
    run: Run<'a, T>,
    trace: Seq<Progress<'a, T>>,
    j: int,
)
    requires
        is_trace(run, trace),
        0 <= j < trace.len(),
    ensures
        carried_denial(trace[j].next) matches Some(denial) ==> exists|i: int|
            0 <= i < j && #[trigger] denial_at(trace, i, denial),
    decreases j,
{
    if j > 0 && carried_denial(trace[j].next) is Some {
        let denial = carried_denial(trace[j].next)->0;
        lemma_carried_denial(run, trace, j - 1);
        assert(leads_to(trace[j - 1].next, trace[j - 1 + 1]));
        if carried_denial(trace[j - 1].next) != Some(denial) {
            assert(denial_at(trace, j - 1, denial));
        }
    }
}

/// At `i` an attempt met a sandbox denial.
pub open spec fn denied_at<T: ToolTypes>(trace: Seq<Progress<'_, T>>, i: int) -> bool {
    exists|denial: SandboxDenial<T>| denial_at(trace, i, denial)
}

/// What lies behind a run that has come to `j`.
pub open spec fn history<'a, T: ToolTypes>(
    run: Run<'a, T>,
    trace: Seq<Progress<'a, T>>,
    j: int,
) -> bool {
    let r = rank(trace[j].next);
    &&& 7 <= r < 29 ==> permit_recorded(trace, 0, j)
    &&& 11 <= r < 29 ==> exists|i: int| 0 <= i < j && #[trigger] first_attempt_at(trace, i)
    &&& 13 <= r < 29 ==> exists|i: int| 0 <= i < j && #[trigger] denied_at(trace, i)
    &&& 15 <= r < 29 ==> exists|i: int| 0 <= i < j && #[trigger] not_blocked_at(trace, i)
    &&& 17 <= r < 29 ==> exists|i: int| 0 <= i < j && #[trigger] escalated_at(trace, i)
    &&& 19 <= r < 29 ==> exists|i: int| 0 <= i < j && #[trigger] policy_allowed_at(run, trace, i)
    &&& 20 <= r < 29 ==> exists|i: int| 0 <= i < j && (#[trigger] trace[i]).next is BypassApproval
    &&& 25 <= r < 29 ==> exists|i: int| 0 <= i < j && #[trigger] retry_approved(trace, i, j)
}

pub(crate) proof fn lemma_history<'a, T: ToolTypes>(
    run: Run<'a, T>,
    trace: Seq<Progress<'a, T>>,
    j: int,
)
    requires
        is_trace(run, trace),
        0 <= j < trace.len(),
    ensures
        history(run, trace, j),
    decreases j,
{
    if j > 0 {
        let k = j - 1;
        lemma_history(run, trace, k);
        lemma_belongs_to(run, trace, k);
        assert(leads_to(trace[k].next, trace[k + 1]));
        lemma_rank_grows(trace[k].next, trace[j]);
        let r = rank(trace[j].next);
        if 7 <= r < 29 {
            if rank(trace[k].next) < 7 {
                assert(trace[j].record matches Some(record) && record.decision.permits());
            } else {
                let i = choose|i: int|
                    0 <= i <= k && (#[trigger] trace[i].record matches Some(record)
                        && record.decision.permits());
                assert(trace[i].record is Some);
            }
            assert(permit_recorded(trace, 0, j));
        }
        if 11 <= r < 29 && rank(trace[k].next) < 11 {
            assert(first_attempt_at(trace, k));
        }
        if 13 <= r < 29 && rank(trace[k].next) < 13 {
            lemma_carried_denial(run, trace, j);
            let denial = carried_denial(trace[j].next)->0;
            let i = choose|i: int| 0 <= i < j && #[trigger] denial_at(trace, i, denial);
            assert(denied_at(trace, i));
        }
        if 15 <= r < 29 && rank(trace[k].next) < 15 {
            assert(not_blocked_at(trace, k));
        }
        if 17 <= r < 29 && rank(trace[k].next) < 17 {
            assert(escalated_at(trace, k));
        }
        if 19 <= r < 29 && rank(trace[k].next) < 19 {
            assert(policy_allowed_at(run, trace, k));
        }
        if 25 <= r < 29 {
            if trace[k].next is BypassApproval {
                assert(retry_approved(trace, k, j));
            } else if rank(trace[k].next) < 25 {
                let i = choose|i: int| 0 <= i < k && (#[trigger] trace[i]).next is BypassApproval;
                assert(trace[j].record matches Some(record) && record.decision.permits());
                assert(retry_approved(trace, i, j));
            } else {
                let i = choose|i: int| 0 <= i < k && #[trigger] retry_approved(trace, i, k);
                if permit_recorded(trace, i + 1, k) {
                    let m = choose|m: int|
                        i + 1 <= m <= k && (#[trigger] trace[m].record matches Some(record)
                            && record.decision.permits());
                    assert(trace[m].record is Some);
                    assert(permit_recorded(trace, i + 1, j));
                }
                assert(retry_approved(trace, i, j));
            }
        }
    }
}

/// No attempt is made before the call was permitted: by a requirement that asks for nothing, by a
/// hook, or by whoever was prompted.
pub proof fn law_no_attempt_without_permission<'a, T: ToolTypes>(
    run: Run<'a, T>,
    trace: Seq<Progress<'a, T>>,
    j: int,
)
    requires
        is_trace(run, trace),
        0 <= j < trace.len(),
        trace[j].next is Attempt,
    ensures
        permit_recorded(trace, 0, j),
{
    lemma_history(run, trace, j);
}

/// A second attempt comes only after a first one that the sandbox denied, after the tool was asked
/// about external feedback and found none that blocks it, after the tool agreed to escalate, after
/// the approval policy left room for it, and with an approval: the one that was there, or a new
/// one. Where the network policy had a part in the denial, only a new one will do.
pub proof fn law_second_attempt_was_cleared<'a, T: ToolTypes>(
    run: Run<'a, T>,
    trace: Seq<Progress<'a, T>>,
    j: int,
)
    requires
        is_trace(run, trace),
        0 <= j < trace.len(),
        trace[j].next matches Step::Attempt(q) && q.stage is Retry,
    ensures
        exists|i: int| 0 <= i < j && #[trigger] first_attempt_at(trace, i),
        exists|i: int| 0 <= i < j && #[trigger] denied_at(trace, i),
        exists|i: int| 0 <= i < j && #[trigger] not_blocked_at(trace, i),
        exists|i: int| 0 <= i < j && #[trigger] escalated_at(trace, i),
        exists|i: int| 0 <= i < j && #[trigger] policy_allowed_at(run, trace, i),
        exists|i: int| 0 <= i < j && #[trigger] retry_approved(trace, i, j),
{
    lemma_history(run, trace, j);
}

/// External feedback that blocks the retry ends the run on the spot, with the tool's error for it
/// and after one attempt: the first.
pub proof fn law_external_feedback_stops_the_retry<'a, T: ToolTypes>(
    run: Run<'a, T>,
    trace: Seq<Progress<'a, T>>,
    i: int,
    error: ToolError<T>,
)
    requires
        is_trace(run, trace),
        0 <= i < trace.len() - 1,
        trace[i].next matches Step::RetryBlocked(q) && q.answered(Some(error), trace[i + 1]),
    ensures
        trace[i + 1].next == Step::<'a, T>::Done(Err(error)),
        trace.len() == i + 2,
        exists|k: int| 0 <= k < i && #[trigger] first_attempt_at(trace, k),
        forall|k: int, m: int|
            0 <= k < trace.len() && 0 <= m < trace.len() && (#[trigger] trace[k]).next is Attempt
                && (#[trigger] trace[m]).next is Attempt ==> k == m,
{
    lemma_history(run, trace, i);
    law_end_is_last(run, trace, i + 1);
    assert forall|k: int, m: int|
        0 <= k < trace.len() && 0 <= m < trace.len() && (#[trigger] trace[k]).next is Attempt && (
        #[trigger] trace[m]).next is Attempt implies k == m by {
        lemma_rank_at(run, trace, if k < i { k } else { i }, if k < i { i } else { k });
        lemma_rank_at(run, trace, if m < i { m } else { i }, if m < i { i } else { m });
        lemma_rank_at(run, trace, if k < m { k } else { m }, if k < m { m } else { k });
    }
}

/// A decision that does not permit the call is the last: no attempt and no other prompt follows
/// it, and the run ends with a rejection.
pub proof fn law_refusal_ends_the_run<'a, T: ToolTypes>(
    run: Run<'a, T>,
    trace: Seq<Progress<'a, T>>,
    i: int,
)
    requires
        is_trace(run, trace),
        0 <= i < trace.len(),
        trace[i].record matches Some(record) && !record.decision.permits(),
    ensures
        trace.len() <= i + 2,
        !(trace[i].next is Attempt || trace[i].next is Approval),
        trace.last().next is Done ==> trace.last().next matches Step::Done(
            Err(ToolError::Rejected(_)),
        ),
        i + 1 < trace.len() ==> trace[i + 1].next is Done,
{
    assert(leads_to(trace[i - 1].next, trace[i - 1 + 1]));
    if i + 1 < trace.len() {
        assert(leads_to(trace[i].next, trace[i + 1]));
        lemma_rank_grows(trace[i].next, trace[i + 1]);
        law_end_is_last(run, trace, i + 1);
    }
}

/// A call that is forbidden is rejected for the given reason, with no attempt.
pub proof fn law_forbidden_call_is_rejected<'a, T: ToolTypes>(
    run: Run<'a, T>,
    trace: Seq<Progress<'a, T>>,
    i: int,
    reason: String,
)
    requires
        is_trace(run, trace),
        0 <= i < trace.len() - 1,
        match trace[i].next {
            Step::ExecApprovalRequirement(q) => q.answered(
                Some(ExecApprovalRequirement::Forbidden { reason }),
                trace[i + 1],
            ),
            Step::DefaultRequirement(q) => q.answered(
                ExecApprovalRequirement::Forbidden { reason },
                trace[i + 1],
            ),
            _ => false,
        },
    ensures
        trace.len() == i + 2,
        trace[i + 1].next == Step::<'a, T>::Done(Err(ToolError::Rejected(reason))),
        forall|k: int| 0 <= k < trace.len() ==> !((#[trigger] trace[k]).next is Attempt),
{
    law_end_is_last(run, trace, i + 1);
    assert forall|k: int| 0 <= k < trace.len() implies !((#[trigger] trace[k]).next is Attempt) by {
        if k <= i {
            lemma_rank_at(run, trace, k, i);
        }
    }
}

/// Hooks come first: once a hook has decided about an attempt, nobody is prompted about it.
pub proof fn law_hooks_come_first<'a, T: ToolTypes>(
    run: Run<'a, T>,
    trace: Seq<Progress<'a, T>>,
    i: int,
    k: int,
    decision: PermissionRequestDecision,
)
    requires
        is_trace(run, trace),
        0 <= i < trace.len() - 1,
        0 <= k < trace.len(),
        trace[i].next matches Step::PermissionRequestHooks(_, q) && q.answered(
            Some(decision),
            trace[i + 1],
        ),
        trace[k].next is Approval,
    ensures
        trace[k].next->Approval_0.stage != trace[i].next->PermissionRequestHooks_1.stage,
{
    if k <= i {
        lemma_rank_at(run, trace, k, i);
    } else {
        lemma_rank_at(run, trace, i + 1, k);
    }
}

/// An approval that is there already is not asked for again: where the tool can do without a new
/// one and no network access is at stake, the second attempt follows with no prompt before it.
pub proof fn law_no_second_approval_without_need<'a, T: ToolTypes>(
    run: Run<'a, T>,
    trace: Seq<Progress<'a, T>>,
    i: int,
    k: int,
)
    requires
        is_trace(run, trace),
        0 <= i < trace.len() - 1,
        trace[i].next matches Step::BypassApproval(q) && q.network_approval_context is None
            && q.answered(true, trace[i + 1]),
        i < k < trace.len(),
    ensures
        trace[i + 1].next == run.escalated_attempt_step(),
        !(trace[k].next is Approval),
        !(trace[k].next is PermissionRequestHooks),
{
    lemma_belongs_to(run, trace, i);
    lemma_rank_at(run, trace, i + 1, k);
}

/// Every record names the tool and the call of the run, and who decided: a prompt was answered by
/// the guardian where it reviews and by the user where it does not, and whatever no prompt decided
/// is the configuration's.
pub proof fn law_records_name_the_call_and_the_source<'a, T: ToolTypes>(
    run: Run<'a, T>,
    trace: Seq<Progress<'a, T>>,
    i: int,
)
    requires
        is_trace(run, trace),
        0 <= i < trace.len(),
        trace[i].record is Some,
    ensures
        i > 0,
        trace[i].record->0.tool_name == run.tool_name,
        trace[i].record->0.call_id == run.call_id,
        trace[i].record->0.source == if !(trace[i - 1].next is Approval) {
            ToolDecisionSource::Config
        } else if run.use_guardian {
            ToolDecisionSource::AutomatedReviewer
        } else {
            ToolDecisionSource::User
        },
{
    assert(leads_to(trace[i - 1].next, trace[i - 1 + 1]));
    lemma_belongs_to(run, trace, i - 1);
}

/// The approval for `stage` is decided by the answer that leads from `step` to `p`, and the
/// decision is what is recorded: that of a hook as the configuration's, that of a prompt as the
/// guardian's or the user's.
pub open spec fn records_decision<'a, T: ToolTypes>(
    run: Run<'a, T>,
    stage: ApprovalStage,
    step: Step<'a, T>,
    p: Progress<'a, T>,
) -> bool {
    match step {
        Step::PermissionRequestHooks(_, q) => q.stage == stage && exists|
            decision: PermissionRequestDecision,
        | #[trigger]
            q.answered(Some(decision), p) && p.record == Some(
                run.record_of(
                    match decision {
                        PermissionRequestDecision::Allow => ReviewDecision::Approved,
                        PermissionRequestDecision::Deny { .. } => ReviewDecision::Denied,
                    },
                    ToolDecisionSource::Config,
                ),
            ),
        Step::Approval(q) => q.stage == stage && exists|decision: ReviewDecision<T>| #[trigger]
            q.answered(decision, p) && p.record == Some(
                run.record_of(
                    decision,
                    if run.use_guardian {
                        ToolDecisionSource::AutomatedReviewer
                    } else {
                        ToolDecisionSource::User
                    },
                ),
            ),
        _ => false,
    }
}

/// `step` is a question of the approval for `stage`, once there is an approval context.
pub open spec fn is_in_approval<T: ToolTypes>(stage: ApprovalStage, step: Step<'_, T>) -> bool {
    match step {
        Step::PermissionRequestPayload(q) => q.stage == stage,
        Step::PermissionRequestHooks(_, q) => q.stage == stage,
        Step::Approval(q) => q.stage == stage,
        _ => false,
    }
}

proof fn lemma_approval_opens_unrecorded<'a, T: ToolTypes>(step: Step<'a, T>, p: Progress<'a, T>)
    requires
        leads_to(step, p),
        p.next is PermissionRequestPayload,
    ensures
        p.record is None,
{
}

proof fn lemma_approval_step<'a, T: ToolTypes>(
    run: Run<'a, T>,
    stage: ApprovalStage,
    step: Step<'a, T>,
    p: Progress<'a, T>,
)
    requires
        belongs_to(run, step),
        leads_to(step, p),
        is_in_approval(stage, step),
    ensures
        is_in_approval(stage, p.next) ==> p.record is None,
        !is_in_approval(stage, p.next) ==> records_decision(run, stage, step, p),
        step is PermissionRequestPayload ==> is_in_approval(stage, p.next),
{
}

proof fn lemma_approval_is_settled<'a, T: ToolTypes>(
    run: Run<'a, T>,
    trace: Seq<Progress<'a, T>>,
    i: int,
    stage: ApprovalStage,
) -> (k: int)
    requires
        is_trace(run, trace),
        0 <= i < trace.len(),
        is_in_approval(stage, trace[i].next),
        trace.last().next is Done,
    ensures
        i < k < trace.len(),
        records_decision(run, stage, trace[k - 1].next, trace[k]),
        !is_in_approval(stage, trace[k].next),
        forall|m: int| i <= m < k ==> is_in_approval(stage, (#[trigger] trace[m]).next),
        forall|m: int| i < m < k ==> (#[trigger] trace[m]).record is None,
    decreases trace.len() - i,
{
    lemma_belongs_to(run, trace, i);
    assert(leads_to(trace[i].next, trace[i + 1]));
    lemma_approval_step(run, stage, trace[i].next, trace[i + 1]);
    if is_in_approval(stage, trace[i + 1].next) {
        lemma_approval_is_settled(run, trace, i + 1, stage)
    } else {
        i + 1
    }
}

spec fn approval_start(stage: ApprovalStage) -> int {
    3 + approval_offset(stage)
}

proof fn lemma_approval_rank<T: ToolTypes>(stage: ApprovalStage, step: Step<'_, T>)
    ensures
        is_in_approval(stage, step) ==> approval_start(stage) <= rank(step) <= approval_start(stage)
            + 2,
        approval_start(stage) <= rank(step) <= approval_start(stage) + 2 ==> is_in_approval(
            stage,
            step,
        ),
        step is PermissionRequestPayload && is_in_approval(stage, step) ==> rank(step)
            == approval_start(stage),
{
}

/// Every approval is recorded exactly once: from the step that opens it to the one that settles
/// it, at `k`, the only record is that of its decision, at `k`, and the run does not come back to
/// it.
pub proof fn law_each_approval_is_recorded_once<'a, T: ToolTypes>(
    run: Run<'a, T>,
    trace: Seq<Progress<'a, T>>,
    i: int,
    stage: ApprovalStage,
) -> (k: int)
    requires
        is_trace(run, trace),
        0 <= i < trace.len(),
        trace[i].next matches Step::PermissionRequestPayload(q) && q.stage == stage,
        trace.last().next is Done,
    ensures
        i < k < trace.len(),
        records_decision(run, stage, trace[k - 1].next, trace[k]),
        forall|m: int| i <= m < k ==> (#[trigger] trace[m]).record is None,
        forall|m: int|
            0 <= m < trace.len() ==> (is_in_approval(stage, (#[trigger] trace[m]).next) <==> i <= m
                < k),
{
    assert(leads_to(trace[i - 1].next, trace[i - 1 + 1]));
    lemma_approval_opens_unrecorded(trace[i - 1].next, trace[i]);
    let k = lemma_approval_is_settled(run, trace, i, stage);
    lemma_approval_rank(stage, trace[i].next);
    lemma_approval_rank(stage, trace[k].next);
    lemma_rank_at(run, trace, i, k);
    assert forall|m: int| 0 <= m < trace.len() implies (is_in_approval(
        stage,
        (#[trigger] trace[m]).next,
    ) <==> i <= m < k) by {
        lemma_approval_rank(stage, trace[m].next);
        if m < i {
            lemma_rank_at(run, trace, m, i);
        } else if k <= m {
            lemma_rank_at(run, trace, k, m);
        }
    }
    k
}

/// Every prompt that was answered leaves a record of the answer.
pub proof fn law_prompts_are_recorded<'a, T: ToolTypes>(
    run: Run<'a, T>,
    trace: Seq<Progress<'a, T>>,
    i: int,
)
    requires
        is_trace(run, trace),
        0 <= i < trace.len() - 1,
        trace[i].next is Approval,
    ensures
        trace[i + 1].record is Some,
{
    assert(leads_to(trace[i].next, trace[i + 1]));
}

/// The answer that leads from `step` to `p` says that the call needs approval.
pub open spec fn needs_approval<'a, T: ToolTypes>(step: Step<'a, T>, p: Progress<'a, T>) -> bool {
    match step {
        Step::ExecApprovalRequirement(q) => exists|a: ExecApprovalRequirement|
            a is NeedsApproval && #[trigger] q.answered(Some(a), p),
        Step::DefaultRequirement(q) => exists|a: ExecApprovalRequirement|
            a is NeedsApproval && #[trigger] q.answered(a, p),
        _ => false,
    }
}

/// The answer that leads from `step` to `p` approves the first attempt: it is a hook's, or that of
/// whoever was prompted.
pub open spec fn grants_first_attempt<'a, T: ToolTypes>(
    step: Step<'a, T>,
    p: Progress<'a, T>,
) -> bool {
    match step {
        Step::PermissionRequestHooks(_, q) => q.stage is First && q.answered(
            Some(PermissionRequestDecision::Allow),
            p,
        ),
        Step::Approval(q) => q.stage is First && exists|decision: ReviewDecision<T>|
            decision.permits() && #[trigger] q.answered(decision, p),
        _ => false,
    }
}

/// At `i` the call was found to need approval.
pub open spec fn approval_needed_at<T: ToolTypes>(trace: Seq<Progress<'_, T>>, i: int) -> bool {
    needs_approval(trace[i].next, trace[i + 1])
}

/// At `i` the first attempt was approved.
pub open spec fn first_approval_granted_at<T: ToolTypes>(
    trace: Seq<Progress<'_, T>>,
    i: int,
) -> bool {
    grants_first_attempt(trace[i].next, trace[i + 1])
}

/// At `i` the call was found to need no approval.
spec fn approval_skipped_at<T: ToolTypes>(trace: Seq<Progress<'_, T>>, i: int) -> bool {
    rank(trace[i].next) < 2 && trace[i + 1].next is SandboxOverride
}

/// What `step` holds about an approval of the first attempt.
spec fn carried_approval<T: ToolTypes>(step: Step<'_, T>) -> Option<bool> {
    match step {
        Step::SandboxOverride(q) => Some(q.already_approved),
        Step::InitialSandbox(q) => Some(q.already_approved),
        Step::BeginNetworkApproval(q) => approval_of(q.stage),
        Step::Attempt(q) => approval_of(q.stage),
        Step::FinishImmediate(_, q) => approval_of(q.stage),
        Step::IntoDeferred(_, q) => approval_of(q.stage),
        Step::FinishDeferred(_, q) => approval_of(q.stage),
        Step::RefreshInbox(q) => Some(q.denied.already_approved),
        Step::RetryBlocked(q) => Some(q.denied.already_approved),
        Step::NetworkApprovalContext(q) => Some(q.denied.already_approved),
        Step::EscalateOnFailure(q) => Some(q.denied.already_approved),
        Step::WantsNoSandboxApproval(q) => Some(q.denied.already_approved),
        Step::NetworkPromptRequirement(q) => Some(q.denied.already_approved),
        Step::BypassApproval(q) => Some(q.denied.already_approved),
        _ => None,
    }
}

spec fn approval_of(stage: AttemptStage) -> Option<bool> {
    match stage {
        AttemptStage::First { already_approved } => Some(already_approved),
        AttemptStage::Retry => None,
    }
}

proof fn lemma_first_approval_step<'a, T: ToolTypes>(step: Step<'a, T>, p: Progress<'a, T>)
    requires
        leads_to(step, p),
    ensures
        2 <= rank(p.next) <= 5 ==> rank(step) >= 2 || needs_approval(step, p),
        carried_approval(p.next) is Some && !(p.next is SandboxOverride) ==> carried_approval(step)
            == carried_approval(p.next),
        p.next is SandboxOverride ==> if rank(step) < 2 {
            carried_approval(p.next) == Some(false)
        } else {
            rank(step) <= 5 && carried_approval(p.next) == Some(true) && grants_first_attempt(
                step,
                p,
            )
        },
{
}

proof fn lemma_first_approval_is_once<'a, T: ToolTypes>(step: Step<'a, T>, p: Progress<'a, T>)
    ensures
        needs_approval(step, p) ==> rank(step) < 2 && !(p.next is SandboxOverride) && rank(p.next)
            >= 2,
        grants_first_attempt(step, p) ==> 4 <= rank(step) <= 5,
{
}

proof fn lemma_carried_approval<'a, T: ToolTypes>(
    run: Run<'a, T>,
    trace: Seq<Progress<'a, T>>,
    j: int,
)
    requires
        is_trace(run, trace),
        0 <= j < trace.len(),
    ensures
        2 <= rank(trace[j].next) <= 5 || carried_approval(trace[j].next) == Some(true) ==> exists|
            i: int,
        |
            0 <= i < j && #[trigger] approval_needed_at(trace, i),
        carried_approval(trace[j].next) == Some(true) ==> exists|i: int|
            0 <= i < j && #[trigger] first_approval_granted_at(trace, i),
        carried_approval(trace[j].next) == Some(false) ==> exists|i: int|
            0 <= i < j && #[trigger] approval_skipped_at(trace, i),
    decreases j,
{
    if j > 0 {
        let k = j - 1;
        lemma_carried_approval(run, trace, k);
        assert(leads_to(trace[k].next, trace[k + 1]));
        lemma_rank_grows(trace[k].next, trace[j]);
        lemma_first_approval_step(trace[k].next, trace[j]);
        assert(approval_needed_at(trace, k) == needs_approval(trace[k].next, trace[j]));
        assert(first_approval_granted_at(trace, k) == grants_first_attempt(
            trace[k].next,
            trace[j],
        ));
        assert(approval_skipped_at(trace, k) == (rank(trace[k].next) < 2 && trace[j].next
            is SandboxOverride));
    }
}

/// When the tool is asked whether the second attempt can do without an approval of its own, it is
/// told that there is one already exactly where the call needed approval, and exactly where the
/// first attempt was approved.
pub proof fn law_already_approved_means_asked_and_granted<'a, T: ToolTypes>(
    run: Run<'a, T>,
    trace: Seq<Progress<'a, T>>,
    j: int,
)
    requires
        is_trace(run, trace),
        0 <= j < trace.len(),
        trace[j].next is BypassApproval,
    ensures
        trace[j].next->BypassApproval_0.denied.already_approved <==> exists|i: int|
            0 <= i < j && #[trigger] approval_needed_at(trace, i),
        trace[j].next->BypassApproval_0.denied.already_approved <==> exists|i: int|
            0 <= i < j && #[trigger] first_approval_granted_at(trace, i),
{
    lemma_carried_approval(run, trace, j);
    if carried_approval(trace[j].next) == Some(false) {
        let s = choose|i: int| 0 <= i < j && #[trigger] approval_skipped_at(trace, i);
        assert forall|i: int| 0 <= i < j implies !#[trigger] approval_needed_at(trace, i) by {
            lemma_first_approval_is_once(trace[i].next, trace[i + 1]);
            if i < s {
                lemma_rank_at(run, trace, i + 1, s);
            } else if s < i {
                lemma_rank_at(run, trace, s + 1, i);
            }
        }
        assert forall|i: int| 0 <= i < j implies !#[trigger] first_approval_granted_at(
            trace,
            i,
        ) by {
            lemma_first_approval_is_once(trace[i].next, trace[i + 1]);
            if i <= s {
                lemma_rank_at(run, trace, i, s);
            } else {
                lemma_rank_at(run, trace, s + 1, i);
            }
        }
    }
}

/// `p` hands the deferred network approval to the caller with the output of the attempt, or, where
/// the attempt failed, has it finished.
pub open spec fn deferred_is_settled<'a, T: ToolTypes>(
    q: AskIntoDeferred<'a, T>,
    p: Progress<'a, T>,
) -> bool {
    exists|deferred: Option<T::DeferredNetworkApproval>| #[trigger]
        q.answered(deferred, p) && match q.run_result {
            Ok(output) => p.next == Step::<'a, T>::Done(
                Ok(OrchestratorRunResult { output, deferred_network_approval: deferred }),
            ),
            Err(_) => p.next matches Step::FinishDeferred(finished, _) && finished == deferred,
        }
}

/// A network approval that begins is brought to its end before the run ends. An immediate one is
/// finished right after the attempt. A deferred one goes to the caller with the output of the
/// attempt, or is finished where the attempt failed.
pub proof fn law_network_approvals_are_settled<'a, T: ToolTypes>(
    run: Run<'a, T>,
    trace: Seq<Progress<'a, T>>,
    i: int,
    active: ActiveNetworkApproval<T>,
)
    requires
        is_trace(run, trace),
        0 <= i < trace.len() - 1,
        trace[i].next matches Step::BeginNetworkApproval(q) && q.answered(
            Some(active),
            trace[i + 1],
        ),
        trace.last().next is Done,
    ensures
        i + 3 < trace.len(),
        trace[i + 1].next is Attempt,
        match active.mode {
            NetworkApprovalMode::Immediate => {
                &&& trace[i + 2].next matches Step::FinishImmediate(approval, _)
                &&& approval == active.approval
            },
            NetworkApprovalMode::Deferred => {
                &&& trace[i + 2].next matches Step::IntoDeferred(approval, q)
                &&& approval == active.approval
                &&& deferred_is_settled(q, trace[i + 3])
            },
        },
{
    assert(i + 1 != trace.len() - 1);
    assert(leads_to(trace[i + 1].next, trace[i + 1 + 1]));
    assert(i + 2 != trace.len() - 1);
    assert(leads_to(trace[i + 2].next, trace[i + 2 + 1]));
}

/// At `i` an attempt gave the output of `result`. Where the attempt had a deferred network
/// approval, the approval of `result` is what came of that very approval; else there is none.
pub open spec fn result_at<'a, T: ToolTypes>(
    trace: Seq<Progress<'a, T>>,
    i: int,
    result: OrchestratorRunResult<T>,
) -> bool {
    &&& trace[i].next matches Step::Attempt(q)
    &&& q.answered(Ok(result.output), trace[i + 1])
    &&& match q.network_approval {
        Some(ActiveNetworkApproval { mode: NetworkApprovalMode::Deferred, approval }) => {
            &&& trace[i + 1].next matches Step::IntoDeferred(taken, deferring)
            &&& taken == approval
            &&& deferring.answered(result.deferred_network_approval, trace[i + 2])
        },
        _ => result.deferred_network_approval is None,
    }
}

/// The result of a successful run is that of its last attempt: its output, and its own deferred
/// network approval, if it had one.
pub proof fn law_output_is_the_last_attempts<'a, T: ToolTypes>(
    run: Run<'a, T>,
    trace: Seq<Progress<'a, T>>,
    j: int,
    result: OrchestratorRunResult<T>,
)
    requires
        is_trace(run, trace),
        0 <= j < trace.len(),
        trace[j].next == Step::<'a, T>::Done(Ok(result)),
    ensures
        exists|i: int|
            0 <= i < j && #[trigger] result_at(trace, i, result) && forall|k: int|
                i < k < trace.len() ==> !((#[trigger] trace[k]).next is Attempt),
{
    assert(leads_to(trace[j - 1].next, trace[j - 1 + 1]));
    law_end_is_last(run, trace, j);
    let i = if trace[j - 1].next is Attempt {
        j - 1
    } else {
        assert(leads_to(trace[j - 2].next, trace[j - 2 + 1]));
        j - 2
    };
    assert(result_at(trace, i, result));
}

/// The run ended at `i`, with `error`.
pub open spec fn failed_at<'a, T: ToolTypes>(
    trace: Seq<Progress<'a, T>>,
    i: int,
    error: ToolError<T>,
) -> bool {
    trace.len() == i + 1 && trace[i].next == Step::<'a, T>::Done(Err(error))
}

/// The run does not go on after an attempt of `stage` that failed with `error`: it is the second,
/// or the failure is no sandbox denial.
pub open spec fn is_final_failure<T: ToolTypes>(stage: AttemptStage, error: ToolError<T>) -> bool {
    stage is Retry || !(error is SandboxDenied)
}

/// The failure of the last attempt is the result of the run, unchanged, once its network approval
/// is settled. Only the failure to finish an immediate network approval takes its place.
pub proof fn law_last_failure_is_the_result<'a, T: ToolTypes>(
    run: Run<'a, T>,
    trace: Seq<Progress<'a, T>>,
    i: int,
    error: ToolError<T>,
)
    requires
        is_trace(run, trace),
        0 <= i < trace.len() - 1,
        trace[i].next matches Step::Attempt(q) && is_final_failure(q.stage, error) && q.answered(
            Err(error),
            trace[i + 1],
        ),
        trace.last().next is Done,
    ensures
        match trace[i].next->Attempt_0.network_approval {
            None => failed_at(trace, i + 1, error),
            Some(active) => match active.mode {
                NetworkApprovalMode::Deferred => failed_at(trace, i + 3, error),
                NetworkApprovalMode::Immediate => {
                    &&& i + 2 < trace.len()
                    &&& trace[i + 1].next matches Step::FinishImmediate(_, q)
                    &&& q.stage == trace[i].next->Attempt_0.stage
                    &&& q.answered(Ok(()), trace[i + 2]) && failed_at(trace, i + 2, error)
                        || exists|other: ToolError<T>| #[trigger]
                        q.answered(Err(other), trace[i + 2]) && (is_final_failure(q.stage, other)
                            ==> failed_at(trace, i + 2, other))
                },
            },
        },
{
    match trace[i].next->Attempt_0.network_approval {
        None => {
            law_end_is_last(run, trace, i + 1);
        },
        Some(active) => {
            assert(i + 1 != trace.len() - 1);
            assert(leads_to(trace[i + 1].next, trace[i + 1 + 1]));
            match active.mode {
                NetworkApprovalMode::Deferred => {
                    assert(i + 2 != trace.len() - 1);
                    assert(leads_to(trace[i + 2].next, trace[i + 2 + 1]));
                    law_end_is_last(run, trace, i + 3);
                },
                NetworkApprovalMode::Immediate => {
                    if trace[i + 2].next is Done {
                        law_end_is_last(run, trace, i + 2);
                    }
                },
            }
        },
    }
}

/// A run that ends with a sandbox denial ends with one that an attempt met, unchanged; or else
/// with the error that the tool itself gave for external feedback.
pub proof fn law_denial_is_surfaced_unchanged<'a, T: ToolTypes>(
    run: Run<'a, T>,
    trace: Seq<Progress<'a, T>>,
    j: int,
    denial: SandboxDenial<T>,
)
    requires
        is_trace(run, trace),
        0 <= j < trace.len(),
        trace[j].next == Step::<'a, T>::Done(Err(ToolError::SandboxDenied(denial))),
    ensures
        (exists|i: int| 0 <= i < j && #[trigger] denial_at(trace, i, denial)) || (
        trace[j - 1].next matches Step::RetryBlocked(q) && q.answered(
            Some(ToolError::SandboxDenied(denial)),
            trace[j],
        )),
{
    assert(leads_to(trace[j - 1].next, trace[j - 1 + 1]));
    lemma_carried_denial(run, trace, j - 1);
    if carried_denial(trace[j - 1].next) != Some(denial) && !(trace[j - 1].next is RetryBlocked) {
        assert(denial_at(trace, j - 1, denial));
    }
}

} // verus!
