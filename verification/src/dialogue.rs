//! A run with the answers that it was given.
//!
//! A trace of [`Progress`] values says where a run went. A dialogue also says what was answered on
//! the way, so that what follows can be held against the answer.

use vstd::prelude::*;

use crate::orchestrator::ToolOrchestrator;
use crate::sandboxing::ActiveNetworkApproval;
use crate::sandboxing::AskForApproval;
use crate::sandboxing::ExecApprovalRequirement;
use crate::sandboxing::NetworkApprovalContext;
use crate::sandboxing::PermissionRequestDecision;
use crate::sandboxing::ReviewDecision;
use crate::sandboxing::SandboxOverride;
use crate::sandboxing::SandboxType;
use crate::sandboxing::ToolError;
use crate::sandboxing::ToolTypes;
use crate::sandboxing::TurnContext;
use crate::step::AskApproval;
use crate::step::AskAttempt;
use crate::step::AskBeginNetworkApproval;
use crate::step::AskBypassApproval;
use crate::step::AskDefaultRequirement;
use crate::step::AskEscalateOnFailure;
use crate::step::AskExecApprovalRequirement;
use crate::step::AskFinishDeferred;
use crate::step::AskFinishImmediate;
use crate::step::AskGuardianRejectionMessage;
use crate::step::AskGuardianReviewId;
use crate::step::AskGuardianTimeoutMessage;
use crate::step::AskInitialSandbox;
use crate::step::AskIntoDeferred;
use crate::step::AskNetworkApprovalContext;
use crate::step::AskNetworkPromptRequirement;
use crate::step::AskPermissionRequestHooks;
use crate::step::AskPermissionRequestPayload;
use crate::step::AskRefreshInbox;
use crate::step::AskRetryBlocked;
use crate::step::AskSandboxOverride;
use crate::step::AskWantsNoSandboxApproval;
use crate::step::Progress;
use crate::step::Run;
use crate::step::Step;

verus! {

/// An answer, with the question that it is for.
pub enum Answer<T: ToolTypes> {
    ExecApprovalRequirement(Option<ExecApprovalRequirement>),
    DefaultRequirement(ExecApprovalRequirement),
    GuardianReviewId(String),
    PermissionRequestPayload(Option<T::PermissionRequest>),
    PermissionRequestHooks(Option<PermissionRequestDecision>),
    Approval(ReviewDecision<T>),
    GuardianRejectionMessage(String),
    GuardianTimeoutMessage(String),
    SandboxOverride(SandboxOverride),
    InitialSandbox(SandboxType<T>),
    BeginNetworkApproval(Option<ActiveNetworkApproval<T>>),
    Attempt(Result<T::Out, ToolError<T>>),
    FinishImmediate(Result<(), ToolError<T>>),
    IntoDeferred(Option<T::DeferredNetworkApproval>),
    FinishDeferred,
    RefreshInbox,
    RetryBlocked(Option<ToolError<T>>),
    NetworkApprovalContext(Option<NetworkApprovalContext<T>>),
    EscalateOnFailure(bool),
    WantsNoSandboxApproval(bool),
    NetworkPromptRequirement(ExecApprovalRequirement),
    BypassApproval(bool),
}

/// `answer` is one to the question of `step`, and leads to `p`.
pub open spec fn replies<'a, T: ToolTypes>(
    step: Step<'a, T>,
    answer: Answer<T>,
    p: Progress<'a, T>,
) -> bool {
    match step {
        Step::ExecApprovalRequirement(q) => answer matches Answer::ExecApprovalRequirement(a)
            && q.answered(a, p),
        Step::DefaultRequirement(q) => answer matches Answer::DefaultRequirement(a) && q.answered(
            a,
            p,
        ),
        Step::GuardianReviewId(q) => answer matches Answer::GuardianReviewId(a) && q.answered(a, p),
        Step::PermissionRequestPayload(q) => answer matches Answer::PermissionRequestPayload(a)
            && q.answered(a, p),
        Step::PermissionRequestHooks(_, q) => answer matches Answer::PermissionRequestHooks(a)
            && q.answered(a, p),
        Step::Approval(q) => answer matches Answer::Approval(a) && q.answered(a, p),
        Step::GuardianRejectionMessage(q) => answer matches Answer::GuardianRejectionMessage(a)
            && q.answered(a, p),
        Step::GuardianTimeoutMessage(q) => answer matches Answer::GuardianTimeoutMessage(a)
            && q.answered(a, p),
        Step::SandboxOverride(q) => answer matches Answer::SandboxOverride(a) && q.answered(a, p),
        Step::InitialSandbox(q) => answer matches Answer::InitialSandbox(a) && q.answered(a, p),
        Step::BeginNetworkApproval(q) => answer matches Answer::BeginNetworkApproval(a)
            && q.answered(a, p),
        Step::Attempt(q) => answer matches Answer::Attempt(a) && q.answered(a, p),
        Step::FinishImmediate(_, q) => answer matches Answer::FinishImmediate(a) && q.answered(
            a,
            p,
        ),
        Step::IntoDeferred(_, q) => answer matches Answer::IntoDeferred(a) && q.answered(a, p),
        Step::FinishDeferred(_, q) => answer is FinishDeferred && q.answered(p),
        Step::RefreshInbox(q) => answer is RefreshInbox && q.answered(p),
        Step::RetryBlocked(q) => answer matches Answer::RetryBlocked(a) && q.answered(a, p),
        Step::NetworkApprovalContext(q) => answer matches Answer::NetworkApprovalContext(a)
            && q.answered(a, p),
        Step::EscalateOnFailure(q) => answer matches Answer::EscalateOnFailure(a) && q.answered(
            a,
            p,
        ),
        Step::WantsNoSandboxApproval(q) => answer matches Answer::WantsNoSandboxApproval(a)
            && q.answered(a, p),
        Step::NetworkPromptRequirement(q) => answer matches Answer::NetworkPromptRequirement(a)
            && q.answered(a, p),
        Step::BypassApproval(q) => answer matches Answer::BypassApproval(a) && q.answered(a, p),
        Step::Done(_) => false,
    }
}

/// `trace` is the beginning of a run, or all of it, and `answers` are what it was given: the one
/// at `i` leads from `trace[i]` to `trace[i + 1]`.
pub open spec fn is_dialogue<'a, T: ToolTypes>(
    run: Run<'a, T>,
    trace: Seq<Progress<'a, T>>,
    answers: Seq<Answer<T>>,
) -> bool {
    &&& trace.len() == answers.len() + 1
    &&& trace[0] == (Progress {
        record: None,
        next: Step::ExecApprovalRequirement(AskExecApprovalRequirement { run }),
    })
    &&& forall|i: int|
        0 <= i < answers.len() ==> replies(trace[i].next, #[trigger] answers[i], trace[i + 1])
}

/// What a call of an `answer` method gives back is what its answer leads to, for every question.
pub proof fn law_calls_make_a_dialogue<'a, T: ToolTypes>()
    ensures
        forall|q: AskExecApprovalRequirement<'a, T>, a, p| #[trigger]
            call_ensures(AskExecApprovalRequirement::<'a, T>::answer, (q, a), p) ==> replies(
                Step::ExecApprovalRequirement(q),
                Answer::ExecApprovalRequirement(a),
                p,
            ),
        forall|q: AskDefaultRequirement<'a, T>, a, p| #[trigger]
            call_ensures(AskDefaultRequirement::<'a, T>::answer, (q, a), p) ==> replies(
                Step::DefaultRequirement(q),
                Answer::DefaultRequirement(a),
                p,
            ),
        forall|q: AskGuardianReviewId<'a, T>, a, p| #[trigger]
            call_ensures(AskGuardianReviewId::<'a, T>::answer, (q, a), p) ==> replies(
                Step::GuardianReviewId(q),
                Answer::GuardianReviewId(a),
                p,
            ),
        forall|q: AskPermissionRequestPayload<'a, T>, a, p| #[trigger]
            call_ensures(AskPermissionRequestPayload::<'a, T>::answer, (q, a), p) ==> replies(
                Step::PermissionRequestPayload(q),
                Answer::PermissionRequestPayload(a),
                p,
            ),
        forall|r: T::PermissionRequest, q: AskPermissionRequestHooks<'a, T>, a, p|
            call_ensures(AskPermissionRequestHooks::<'a, T>::answer, (q, a), p) ==> #[trigger] replies(
                Step::PermissionRequestHooks(r, q),
                Answer::PermissionRequestHooks(a),
                p,
            ),
        forall|q: AskApproval<'a, T>, a, p| #[trigger]
            call_ensures(AskApproval::<'a, T>::answer, (q, a), p) ==> replies(
                Step::Approval(q),
                Answer::Approval(a),
                p,
            ),
        forall|q: AskGuardianRejectionMessage, a, p: Progress<'a, T>| #[trigger]
            call_ensures(AskGuardianRejectionMessage::answer::<'a, T>, (q, a), p) ==> replies(
                Step::GuardianRejectionMessage(q),
                Answer::GuardianRejectionMessage(a),
                p,
            ),
        forall|q: AskGuardianTimeoutMessage, a, p: Progress<'a, T>| #[trigger]
            call_ensures(AskGuardianTimeoutMessage::answer::<'a, T>, (q, a), p) ==> replies(
                Step::GuardianTimeoutMessage(q),
                Answer::GuardianTimeoutMessage(a),
                p,
            ),
        forall|q: AskSandboxOverride<'a, T>, a, p| #[trigger]
            call_ensures(AskSandboxOverride::<'a, T>::answer, (q, a), p) ==> replies(
                Step::SandboxOverride(q),
                Answer::SandboxOverride(a),
                p,
            ),
        forall|q: AskInitialSandbox<'a, T>, a, p| #[trigger]
            call_ensures(AskInitialSandbox::<'a, T>::answer, (q, a), p) ==> replies(
                Step::InitialSandbox(q),
                Answer::InitialSandbox(a),
                p,
            ),
        forall|q: AskBeginNetworkApproval<'a, T>, a, p| #[trigger]
            call_ensures(AskBeginNetworkApproval::<'a, T>::answer, (q, a), p) ==> replies(
                Step::BeginNetworkApproval(q),
                Answer::BeginNetworkApproval(a),
                p,
            ),
        forall|q: AskAttempt<'a, T>, a, p| #[trigger]
            call_ensures(AskAttempt::<'a, T>::answer, (q, a), p) ==> replies(
                Step::Attempt(q),
                Answer::Attempt(a),
                p,
            ),
        forall|n: T::NetworkApproval, q: AskFinishImmediate<'a, T>, a, p|
            call_ensures(AskFinishImmediate::<'a, T>::answer, (q, a), p) ==> #[trigger] replies(
                Step::FinishImmediate(n, q),
                Answer::FinishImmediate(a),
                p,
            ),
        forall|n: T::NetworkApproval, q: AskIntoDeferred<'a, T>, a, p|
            call_ensures(AskIntoDeferred::<'a, T>::answer, (q, a), p) ==> #[trigger] replies(
                Step::IntoDeferred(n, q),
                Answer::IntoDeferred(a),
                p,
            ),
        forall|n: Option<T::DeferredNetworkApproval>, q: AskFinishDeferred<'a, T>, p|
            call_ensures(AskFinishDeferred::<'a, T>::answer, (q,), p) ==> #[trigger] replies(
                Step::FinishDeferred(n, q),
                Answer::FinishDeferred,
                p,
            ),
        forall|q: AskRefreshInbox<'a, T>, p| #[trigger]
            call_ensures(AskRefreshInbox::<'a, T>::answer, (q,), p) ==> replies(
                Step::RefreshInbox(q),
                Answer::RefreshInbox,
                p,
            ),
        forall|q: AskRetryBlocked<'a, T>, a, p| #[trigger]
            call_ensures(AskRetryBlocked::<'a, T>::answer, (q, a), p) ==> replies(
                Step::RetryBlocked(q),
                Answer::RetryBlocked(a),
                p,
            ),
        forall|q: AskNetworkApprovalContext<'a, T>, a, p| #[trigger]
            call_ensures(AskNetworkApprovalContext::<'a, T>::answer, (q, a), p) ==> replies(
                Step::NetworkApprovalContext(q),
                Answer::NetworkApprovalContext(a),
                p,
            ),
        forall|q: AskEscalateOnFailure<'a, T>, a, p| #[trigger]
            call_ensures(AskEscalateOnFailure::<'a, T>::answer, (q, a), p) ==> replies(
                Step::EscalateOnFailure(q),
                Answer::EscalateOnFailure(a),
                p,
            ),
        forall|q: AskWantsNoSandboxApproval<'a, T>, a, p| #[trigger]
            call_ensures(AskWantsNoSandboxApproval::<'a, T>::answer, (q, a), p) ==> replies(
                Step::WantsNoSandboxApproval(q),
                Answer::WantsNoSandboxApproval(a),
                p,
            ),
        forall|q: AskNetworkPromptRequirement<'a, T>, a, p| #[trigger]
            call_ensures(AskNetworkPromptRequirement::<'a, T>::answer, (q, a), p) ==> replies(
                Step::NetworkPromptRequirement(q),
                Answer::NetworkPromptRequirement(a),
                p,
            ),
        forall|q: AskBypassApproval<'a, T>, a, p| #[trigger]
            call_ensures(AskBypassApproval::<'a, T>::answer, (q, a), p) ==> replies(
                Step::BypassApproval(q),
                Answer::BypassApproval(a),
                p,
            ),
{
}

/// A call of `run` opens a dialogue about the very call, turn, policy and sandbox manager that it
/// was given.
pub proof fn law_run_opens_a_dialogue<'a, T: ToolTypes>(
    orchestrator: &'a ToolOrchestrator<T>,
    turn: &'a TurnContext<T>,
    tool_name: &'a str,
    call_id: &'a str,
    approval_policy: &'a AskForApproval<T>,
    use_guardian: bool,
    p: Progress<'a, T>,
)
    requires
        call_ensures(
            ToolOrchestrator::<T>::run,
            (orchestrator, turn, tool_name, call_id, approval_policy, use_guardian),
            p,
        ),
    ensures
        is_dialogue(
            Run {
                manager: &orchestrator.sandbox,
                turn,
                tool_name,
                call_id,
                approval_policy,
                use_guardian,
            },
            seq![p],
            seq![],
        ),
{
}

/// The sandbox manager of a run is the one that its orchestrator was made with.
pub proof fn law_manager_is_the_orchestrators<'a, T: ToolTypes>(
    sandbox: T::SandboxManager,
    orchestrator: &'a ToolOrchestrator<T>,
    turn: &'a TurnContext<T>,
    tool_name: &'a str,
    call_id: &'a str,
    approval_policy: &'a AskForApproval<T>,
    use_guardian: bool,
    p: Progress<'a, T>,
)
    requires
        call_ensures(ToolOrchestrator::<T>::new, (sandbox,), *orchestrator),
        call_ensures(
            ToolOrchestrator::<T>::run,
            (orchestrator, turn, tool_name, call_id, approval_policy, use_guardian),
            p,
        ),
    ensures
        p.next matches Step::ExecApprovalRequirement(q) && *q.run.manager == sandbox,
{
}

/// A dialogue goes on with every answer.
pub proof fn law_answer_extends_a_dialogue<'a, T: ToolTypes>(
    run: Run<'a, T>,
    trace: Seq<Progress<'a, T>>,
    answers: Seq<Answer<T>>,
    answer: Answer<T>,
    p: Progress<'a, T>,
)
    requires
        is_dialogue(run, trace, answers),
        replies(trace.last().next, answer, p),
    ensures
        is_dialogue(run, trace.push(p), answers.push(answer)),
{
    let longer = trace.push(p);
    let more = answers.push(answer);
    assert forall|i: int| 0 <= i < more.len() implies replies(
        longer[i].next,
        #[trigger] more[i],
        longer[i + 1],
    ) by {
        if i < answers.len() {
            assert(replies(trace[i].next, answers[i], trace[i + 1]));
        }
    }
}

/// What a dialogue goes through is the trace of a run.
pub proof fn law_dialogue_is_a_trace<'a, T: ToolTypes>(
    run: Run<'a, T>,
    trace: Seq<Progress<'a, T>>,
    answers: Seq<Answer<T>>,
)
    requires
        is_dialogue(run, trace, answers),
    ensures
        crate::run_laws::is_trace(run, trace),
{
    assert forall|i: int| 0 <= i < trace.len() - 1 implies crate::run_laws::leads_to(
        #[trigger] trace[i].next,
        trace[i + 1],
    ) by {
        assert(replies(trace[i].next, answers[i], trace[i + 1]));
        lemma_reply_leads(trace[i].next, answers[i], trace[i + 1]);
    }
}

proof fn lemma_reply_leads<'a, T: ToolTypes>(
    step: Step<'a, T>,
    answer: Answer<T>,
    p: Progress<'a, T>,
)
    requires
        replies(step, answer, p),
    ensures
        crate::run_laws::leads_to(step, p),
{
}

proof fn lemma_has_reply<'a, T: ToolTypes>(step: Step<'a, T>, p: Progress<'a, T>) -> (answer:
    Answer<T>)
    requires
        crate::run_laws::leads_to(step, p),
    ensures
        replies(step, answer, p),
{
    match step {
        Step::ExecApprovalRequirement(q) => Answer::ExecApprovalRequirement(
            choose|a: Option<ExecApprovalRequirement>| q.answered(a, p),
        ),
        Step::DefaultRequirement(q) => Answer::DefaultRequirement(
            choose|a: ExecApprovalRequirement| q.answered(a, p),
        ),
        Step::GuardianReviewId(q) => Answer::GuardianReviewId(
            choose|a: String| q.answered(a, p),
        ),
        Step::PermissionRequestPayload(q) => Answer::PermissionRequestPayload(
            choose|a: Option<T::PermissionRequest>| q.answered(a, p),
        ),
        Step::PermissionRequestHooks(_, q) => Answer::PermissionRequestHooks(
            choose|a: Option<PermissionRequestDecision>| q.answered(a, p),
        ),
        Step::Approval(q) => Answer::Approval(choose|a: ReviewDecision<T>| q.answered(a, p)),
        Step::GuardianRejectionMessage(q) => Answer::GuardianRejectionMessage(
            choose|a: String| q.answered(a, p),
        ),
        Step::GuardianTimeoutMessage(q) => Answer::GuardianTimeoutMessage(
            choose|a: String| q.answered(a, p),
        ),
        Step::SandboxOverride(q) => Answer::SandboxOverride(
            choose|a: SandboxOverride| q.answered(a, p),
        ),
        Step::InitialSandbox(q) => Answer::InitialSandbox(
            choose|a: SandboxType<T>| q.answered(a, p),
        ),
        Step::BeginNetworkApproval(q) => Answer::BeginNetworkApproval(
            choose|a: Option<ActiveNetworkApproval<T>>| q.answered(a, p),
        ),
        Step::Attempt(q) => Answer::Attempt(
            choose|a: Result<T::Out, ToolError<T>>| q.answered(a, p),
        ),
        Step::FinishImmediate(_, q) => Answer::FinishImmediate(
            choose|a: Result<(), ToolError<T>>| q.answered(a, p),
        ),
        Step::IntoDeferred(_, q) => Answer::IntoDeferred(
            choose|a: Option<T::DeferredNetworkApproval>| q.answered(a, p),
        ),
        Step::FinishDeferred(_, _) => Answer::FinishDeferred,
        Step::RefreshInbox(_) => Answer::RefreshInbox,
        Step::RetryBlocked(q) => Answer::RetryBlocked(
            choose|a: Option<ToolError<T>>| q.answered(a, p),
        ),
        Step::NetworkApprovalContext(q) => Answer::NetworkApprovalContext(
            choose|a: Option<NetworkApprovalContext<T>>| q.answered(a, p),
        ),
        Step::EscalateOnFailure(q) => Answer::EscalateOnFailure(choose|a: bool| q.answered(a, p)),
        Step::WantsNoSandboxApproval(q) => Answer::WantsNoSandboxApproval(
            choose|a: bool| q.answered(a, p),
        ),
        Step::NetworkPromptRequirement(q) => Answer::NetworkPromptRequirement(
            choose|a: ExecApprovalRequirement| q.answered(a, p),
        ),
        Step::BypassApproval(q) => Answer::BypassApproval(choose|a: bool| q.answered(a, p)),
        Step::Done(_) => Answer::RefreshInbox,
    }
}

/// Every trace of a run is that of a dialogue.
pub proof fn law_trace_has_its_answers<'a, T: ToolTypes>(
    run: Run<'a, T>,
    trace: Seq<Progress<'a, T>>,
) -> (answers: Seq<Answer<T>>)
    requires
        crate::run_laws::is_trace(run, trace),
    ensures
        is_dialogue(run, trace, answers),
    decreases trace.len(),
{
    if trace.len() == 1 {
        seq![]
    } else {
        let shorter = trace.drop_last();
        assert forall|i: int| 0 <= i < shorter.len() - 1 implies crate::run_laws::leads_to(
            #[trigger] shorter[i].next,
            shorter[i + 1],
        ) by {
            assert(crate::run_laws::leads_to(trace[i].next, trace[i + 1]));
        }
        let answers = law_trace_has_its_answers(run, shorter);
        let k = shorter.len() - 1;
        assert(crate::run_laws::leads_to(trace[k].next, trace[k + 1]));
        let answer = lemma_has_reply(trace[k].next, trace[k + 1]);
        law_answer_extends_a_dialogue(run, shorter, answers, answer, trace.last());
        assert(shorter.push(trace.last()) =~= trace);
        answers.push(answer)
    }
}

} // verus!
