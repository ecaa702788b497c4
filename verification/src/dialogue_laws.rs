//! What each answer does to a run: where it leads, what is recorded, and what is handed on.

use vstd::prelude::*;

use crate::dialogue::Answer;
use crate::sandboxing::ActiveNetworkApproval;
use crate::sandboxing::ApprovalCtx;
use crate::sandboxing::DecisionRecord;
use crate::sandboxing::ExecApprovalRequirement;
use crate::sandboxing::NetworkApprovalContext;
use crate::sandboxing::NetworkApprovalMode;
use crate::sandboxing::PermissionRequestDecision;
use crate::sandboxing::ReviewDecision;
use crate::sandboxing::SandboxAttempt;
use crate::sandboxing::SandboxOverride;
use crate::sandboxing::SandboxType;
use crate::sandboxing::ToolDecisionSource;
use crate::sandboxing::ToolError;
use crate::sandboxing::ToolTypes;
use crate::step::ApprovalStage;
use crate::step::AskApproval;
use crate::step::AskAttempt;
use crate::step::AskBypassApproval;
use crate::step::AskDefaultRequirement;
use crate::step::AskEscalateOnFailure;
use crate::step::AskFinishDeferred;
use crate::step::AskFinishImmediate;
use crate::step::AskGuardianRejectionMessage;
use crate::step::AskGuardianTimeoutMessage;
use crate::step::AskInitialSandbox;
use crate::step::AskIntoDeferred;
use crate::step::AskNetworkApprovalContext;
use crate::step::AskNetworkPromptRequirement;
use crate::step::AskPermissionRequestHooks;
use crate::step::AskPermissionRequestPayload;
use crate::step::AskRefreshInbox;
use crate::step::AskRetryBlocked;
use crate::step::AskSandboxOverride;
use crate::step::AskWantsNoSandboxApproval;
use crate::step::AttemptStage;
use crate::step::DeniedRun;
use crate::step::OrchestratorRunResult;
use crate::step::Progress;
use crate::step::Run;
use crate::step::Step;

verus! {

/// Both are there and read the same, or neither is there.
pub open spec fn reads_the_same(first: Option<String>, second: Option<String>) -> bool {
    match (first, second) {
        (Some(first), Some(second)) => first@ == second@,
        (None, None) => true,
        _ => false,
    }
}

/// `attempt` runs under everything that the turn says, with the manager of the run.
pub open spec fn keeps_the_turn<'a, T: ToolTypes>(
    run: Run<'a, T>,
    attempt: SandboxAttempt<'a, T>,
) -> bool {
    &&& attempt.policy == &run.turn.sandbox_policy
    &&& attempt.file_system_policy == &run.turn.file_system_sandbox_policy
    &&& attempt.network_policy == &run.turn.network_sandbox_policy
    &&& attempt.enforce_managed_network <==> run.turn.network is Some
    &&& attempt.manager == run.manager
    &&& attempt.sandbox_cwd == &run.turn.cwd
    &&& attempt.use_legacy_landlock == run.turn.use_legacy_landlock
    &&& attempt.windows_sandbox_level == &run.turn.windows_sandbox_level
    &&& attempt.windows_sandbox_private_desktop == run.turn.windows_sandbox_private_desktop
}

/// `step` begins the first attempt, in `sandbox`.
pub open spec fn begins_first_attempt<'a, T: ToolTypes>(
    run: Run<'a, T>,
    already_approved: bool,
    sandbox: SandboxType<T>,
    step: Step<'a, T>,
) -> bool {
    &&& step matches Step::BeginNetworkApproval(q)
    &&& q.run == run
    &&& q.stage == AttemptStage::First { already_approved }
    &&& q.attempt.sandbox == sandbox
    &&& keeps_the_turn(run, q.attempt)
    &&& match run.turn.codex_linux_sandbox_exe {
        Some(exe) => q.attempt.codex_linux_sandbox_exe == Some(&exe),
        None => q.attempt.codex_linux_sandbox_exe is None,
    }
}

/// `step` begins the second attempt, without a sandbox and without a helper program.
pub open spec fn begins_second_attempt<'a, T: ToolTypes>(
    run: Run<'a, T>,
    step: Step<'a, T>,
) -> bool {
    &&& step matches Step::BeginNetworkApproval(q)
    &&& q.run == run
    &&& q.stage is Retry
    &&& q.attempt.sandbox is Unsandboxed
    &&& keeps_the_turn(run, q.attempt)
    &&& q.attempt.codex_linux_sandbox_exe is None
}

/// `step` is the way to the attempt that an approval of `stage` is for.
pub open spec fn heads_for_attempt<'a, T: ToolTypes>(
    run: Run<'a, T>,
    stage: ApprovalStage,
    step: Step<'a, T>,
) -> bool {
    match stage {
        ApprovalStage::First => step == Step::<'a, T>::SandboxOverride(
            AskSandboxOverride { run, already_approved: true },
        ),
        ApprovalStage::Retry => begins_second_attempt(run, step),
    }
}

/// The decision lets the call go on: it approves, or it amends the network policy so that the
/// access is allowed.
pub open spec fn lets_go_on<T: ToolTypes>(decision: ReviewDecision<T>) -> bool {
    match decision {
        ReviewDecision::Approved => true,
        ReviewDecision::ApprovedExecpolicyAmendment { .. } => true,
        ReviewDecision::ApprovedForSession => true,
        ReviewDecision::NetworkPolicyAmendment { network_policy_amendment } =>
            network_policy_amendment.action is Allow,
        ReviewDecision::Denied | ReviewDecision::TimedOut | ReviewDecision::Abort => false,
    }
}

/// `step` ends the run with the words for a call that the user turned down.
pub open spec fn ends_rejected_by_user<T: ToolTypes>(step: Step<'_, T>) -> bool {
    step matches Step::Done(Err(ToolError::Rejected(message))) && message@ == "rejected by user"@
}

/// `p` opens the approval of an attempt of `stage`: with a request for a review identifier where
/// the guardian reviews, with the hooks where it does not.
pub open spec fn asks_for_approval<'a, T: ToolTypes>(
    run: Run<'a, T>,
    stage: ApprovalStage,
    context: Option<NetworkApprovalContext<T>>,
    p: Progress<'a, T>,
) -> bool {
    &&& p.record is None
    &&& if run.use_guardian {
        &&& p.next matches Step::GuardianReviewId(q)
        &&& q.run == run
        &&& q.stage == stage
        &&& q.network_approval_context == context
    } else {
        &&& p.next matches Step::PermissionRequestPayload(q)
        &&& q.run == run
        &&& q.stage == stage
        &&& q.approval_ctx.guardian_review_id is None
        &&& q.approval_ctx.network_approval_context == context
    }
}

/// The reason that an approval is opened with.
pub open spec fn opening_reason<T: ToolTypes>(step: Step<'_, T>) -> Option<String> {
    match step {
        Step::GuardianReviewId(q) => q.retry_reason,
        Step::PermissionRequestPayload(q) => q.approval_ctx.retry_reason,
        _ => None,
    }
}

/// The run ends at `p` with `error`, and nothing is recorded.
pub open spec fn fails_with<'a, T: ToolTypes>(p: Progress<'a, T>, error: ToolError<T>) -> bool {
    p.record is None && p.next == Step::<'a, T>::Done(Err(error))
}

pub(crate) proof fn lemma_reply_at<'a, T: ToolTypes>(
    run: Run<'a, T>,
    trace: Seq<Progress<'a, T>>,
    answers: Seq<Answer<T>>,
    i: int,
)
    requires
        crate::dialogue::is_dialogue(run, trace, answers),
        0 <= i < answers.len(),
    ensures
        crate::run_laws::is_trace(run, trace),
        crate::run_laws::belongs_to(run, trace[i].next),
        crate::run_laws::belongs_to(run, trace[i + 1].next),
        crate::dialogue::replies(trace[i].next, answers[i], trace[i + 1]),
{
    crate::dialogue::law_dialogue_is_a_trace(run, trace, answers);
    crate::run_laws::lemma_belongs_to(run, trace, i);
    crate::run_laws::lemma_belongs_to(run, trace, i + 1);
    assert(crate::dialogue::replies(trace[i].next, answers[i], trace[i + 1]));
}

/// The default requirement is asked for exactly where the tool leaves the requirement open.
pub proof fn law_default_is_for_a_silent_tool<'a, T: ToolTypes>(
    run: Run<'a, T>,
    trace: Seq<Progress<'a, T>>,
    answers: Seq<Answer<T>>,
)
    requires
        crate::dialogue::is_dialogue(run, trace, answers),
        answers.len() > 0,
    ensures
        answers[0] is ExecApprovalRequirement,
        answers[0] == Answer::<T>::ExecApprovalRequirement(None) <==> trace[1] == (Progress {
            record: None,
            next: Step::<'a, T>::DefaultRequirement(AskDefaultRequirement { run }),
        }),
{
    lemma_reply_at(run, trace, answers, 0);
}

/// The requirement of the call, the tool's own or else the default, is followed. One that asks for
/// nothing is recorded as an approval of the configuration, and the first attempt is next. One that
/// forbids the call ends the run for the reason given. One that needs approval opens the approval
/// of the first attempt, for the reason given: the run does not end there.
pub proof fn law_requirement_is_followed<'a, T: ToolTypes>(
    run: Run<'a, T>,
    trace: Seq<Progress<'a, T>>,
    answers: Seq<Answer<T>>,
    i: int,
    requirement: ExecApprovalRequirement,
)
    requires
        crate::dialogue::is_dialogue(run, trace, answers),
        0 <= i < answers.len(),
        answers[i] == Answer::<T>::ExecApprovalRequirement(Some(requirement)) || answers[i]
            == Answer::<T>::DefaultRequirement(requirement),
    ensures
        i <= 1,
        match requirement {
            ExecApprovalRequirement::Skip => trace[i + 1] == (Progress {
                record: Some(
                    DecisionRecord {
                        tool_name: run.tool_name,
                        call_id: run.call_id,
                        decision: ReviewDecision::<T>::Approved,
                        source: ToolDecisionSource::Config,
                    },
                ),
                next: Step::<'a, T>::SandboxOverride(
                    AskSandboxOverride { run, already_approved: false },
                ),
            }),
            ExecApprovalRequirement::Forbidden { reason } => {
                &&& fails_with(trace[i + 1], ToolError::Rejected(reason))
                &&& trace.len() == i + 2
            },
            ExecApprovalRequirement::NeedsApproval { reason } => {
                &&& asks_for_approval(run, ApprovalStage::First, None, trace[i + 1])
                &&& reads_the_same(opening_reason(trace[i + 1].next), reason)
            },
        },
{
    lemma_reply_at(run, trace, answers, i);
    crate::run_laws::lemma_rank_at(run, trace, 0, i);
    if requirement is Forbidden {
        crate::run_laws::law_end_is_last(run, trace, i + 1);
    }
}

/// A new review identifier is what the approval goes on under, with nothing else changed.
pub proof fn law_review_goes_on_under_its_identifier<'a, T: ToolTypes>(
    run: Run<'a, T>,
    trace: Seq<Progress<'a, T>>,
    answers: Seq<Answer<T>>,
    i: int,
    review_id: String,
)
    requires
        crate::dialogue::is_dialogue(run, trace, answers),
        0 <= i < answers.len(),
        answers[i] == Answer::<T>::GuardianReviewId(review_id),
    ensures
        run.use_guardian,
        trace[i].next is GuardianReviewId,
        trace[i + 1] == (Progress {
            record: None,
            next: Step::<'a, T>::PermissionRequestPayload(
                AskPermissionRequestPayload {
                    run,
                    stage: trace[i].next->GuardianReviewId_0.stage,
                    approval_ctx: ApprovalCtx {
                        guardian_review_id: Some(review_id),
                        retry_reason: trace[i].next->GuardianReviewId_0.retry_reason,
                        network_approval_context:
                            trace[i].next->GuardianReviewId_0.network_approval_context,
                    },
                },
            ),
        }),
{
    lemma_reply_at(run, trace, answers, i);
}

/// The hooks are asked exactly what the tool gives for them, and before anybody is prompted. Where
/// the tool gives nothing, the prompt is next.
pub proof fn law_hooks_are_asked_what_the_tool_gives<'a, T: ToolTypes>(
    run: Run<'a, T>,
    trace: Seq<Progress<'a, T>>,
    answers: Seq<Answer<T>>,
    i: int,
    payload: Option<T::PermissionRequest>,
)
    requires
        crate::dialogue::is_dialogue(run, trace, answers),
        0 <= i < answers.len(),
        answers[i] == Answer::<T>::PermissionRequestPayload(payload),
    ensures
        trace[i].next is PermissionRequestPayload,
        trace[i + 1].record is None,
        ({
            let asked = trace[i].next->PermissionRequestPayload_0;
            let (stage, approval_ctx) = (asked.stage, asked.approval_ctx);
            match payload {
                Some(request) => trace[i + 1].next == Step::<'a, T>::PermissionRequestHooks(
                    request,
                    AskPermissionRequestHooks { run, stage, approval_ctx },
                ),
                None => trace[i + 1].next == Step::<'a, T>::Approval(
                    AskApproval { run, stage, approval_ctx },
                ),
            }
        }),
{
    lemma_reply_at(run, trace, answers, i);
}

/// A hook that allows the call approves the attempt that it was asked about, the first as well as
/// the second: the approval is recorded as one of the configuration, and the run heads for that
/// attempt. A hook that denies it ends the run in the hook's words, and that is recorded too. Where
/// no hook decides, the prompt is next, as it would have been without hooks.
pub proof fn law_hooks_decide<'a, T: ToolTypes>(
    run: Run<'a, T>,
    trace: Seq<Progress<'a, T>>,
    answers: Seq<Answer<T>>,
    i: int,
    decision: Option<PermissionRequestDecision>,
)
    requires
        crate::dialogue::is_dialogue(run, trace, answers),
        0 <= i < answers.len(),
        answers[i] == Answer::<T>::PermissionRequestHooks(decision),
    ensures
        trace[i].next is PermissionRequestHooks,
        ({
            let asked = trace[i].next->PermissionRequestHooks_1;
            let p = trace[i + 1];
            match decision {
                Some(PermissionRequestDecision::Allow) => {
                    &&& p.record == Some(
                        DecisionRecord {
                            tool_name: run.tool_name,
                            call_id: run.call_id,
                            decision: ReviewDecision::<T>::Approved,
                            source: ToolDecisionSource::Config,
                        },
                    )
                    &&& heads_for_attempt(run, asked.stage, p.next)
                },
                Some(PermissionRequestDecision::Deny { message }) => {
                    &&& p.record == Some(
                        DecisionRecord {
                            tool_name: run.tool_name,
                            call_id: run.call_id,
                            decision: ReviewDecision::<T>::Denied,
                            source: ToolDecisionSource::Config,
                        },
                    )
                    &&& p.next == Step::<'a, T>::Done(Err(ToolError::Rejected(message)))
                },
                None => {
                    &&& p.record is None
                    &&& p.next == Step::<'a, T>::Approval(
                        AskApproval {
                            run,
                            stage: asked.stage,
                            approval_ctx: asked.approval_ctx,
                        },
                    )
                },
            }
        }),
{
    lemma_reply_at(run, trace, answers, i);
}

/// The answer to a prompt is recorded as it came, as the guardian's where it reviews and the user's
/// where it does not, and it is followed: to the attempt that it was about where it lets the call
/// go on, and else to the end of the run, in the words of whoever turned the call down.
pub proof fn law_prompt_decides<'a, T: ToolTypes>(
    run: Run<'a, T>,
    trace: Seq<Progress<'a, T>>,
    answers: Seq<Answer<T>>,
    i: int,
    decision: ReviewDecision<T>,
)
    requires
        crate::dialogue::is_dialogue(run, trace, answers),
        0 <= i < answers.len(),
        answers[i] == Answer::<T>::Approval(decision),
    ensures
        trace[i].next is Approval,
        ({
            let asked = trace[i].next->Approval_0;
            let stage = asked.stage;
            let p = trace[i + 1];
            &&& p.record == Some(
                DecisionRecord {
                    tool_name: run.tool_name,
                    call_id: run.call_id,
                    decision,
                    source: if run.use_guardian {
                        ToolDecisionSource::AutomatedReviewer
                    } else {
                        ToolDecisionSource::User
                    },
                },
            )
            &&& asked.approval_ctx.guardian_review_id is Some <==> run.use_guardian
            &&& lets_go_on(decision) <==> heads_for_attempt(run, stage, p.next)
            &&& decision is TimedOut ==> p.next == Step::<'a, T>::GuardianTimeoutMessage(
                AskGuardianTimeoutMessage { stage },
            )
            &&& decision is NetworkPolicyAmendment && !lets_go_on(decision)
                ==> ends_rejected_by_user(p.next)
            &&& decision is Denied || decision is Abort
                ==> match asked.approval_ctx.guardian_review_id {
                Some(review_id) => p.next == Step::<'a, T>::GuardianRejectionMessage(
                    AskGuardianRejectionMessage { stage, review_id },
                ),
                None => ends_rejected_by_user(p.next),
            }
        }),
{
    lemma_reply_at(run, trace, answers, i);
}

/// A review that turned the call down, or that took too long, ends the run in the guardian's words.
pub proof fn law_guardian_has_the_last_word<'a, T: ToolTypes>(
    run: Run<'a, T>,
    trace: Seq<Progress<'a, T>>,
    answers: Seq<Answer<T>>,
    i: int,
    message: String,
)
    requires
        crate::dialogue::is_dialogue(run, trace, answers),
        0 <= i < answers.len(),
        answers[i] == Answer::<T>::GuardianRejectionMessage(message) || answers[i] == Answer::<
            T,
        >::GuardianTimeoutMessage(message),
    ensures
        fails_with(trace[i + 1], ToolError::Rejected(message)),
        trace.len() == i + 2,
{
    lemma_reply_at(run, trace, answers, i);
    crate::run_laws::law_end_is_last(run, trace, i + 1);
}

/// A tool that overrides the sandbox has its first attempt without one, at once. For any other, the
/// sandbox manager is asked, whatever the policies are, and the first attempt is in the sandbox
/// that it names.
pub proof fn law_sandbox_is_selected<'a, T: ToolTypes>(
    run: Run<'a, T>,
    trace: Seq<Progress<'a, T>>,
    answers: Seq<Answer<T>>,
    i: int,
)
    requires
        crate::dialogue::is_dialogue(run, trace, answers),
        0 <= i < answers.len(),
    ensures
        answers[i] is SandboxOverride <==> trace[i].next is SandboxOverride,
        answers[i] is InitialSandbox <==> trace[i].next is InitialSandbox,
        answers[i] matches Answer::SandboxOverride(sandbox_override) ==> {
            let already_approved = trace[i].next->SandboxOverride_0.already_approved;
            &&& trace[i + 1].record is None
            &&& match sandbox_override {
                SandboxOverride::BypassSandboxFirstAttempt => begins_first_attempt(
                    run,
                    already_approved,
                    SandboxType::Unsandboxed,
                    trace[i + 1].next,
                ),
                SandboxOverride::NoOverride => trace[i + 1].next == Step::<'a, T>::InitialSandbox(
                    AskInitialSandbox { run, already_approved },
                ),
            }
        },
        answers[i] matches Answer::InitialSandbox(sandbox) ==> {
            &&& trace[i + 1].record is None
            &&& begins_first_attempt(
                run,
                trace[i].next->InitialSandbox_0.already_approved,
                sandbox,
                trace[i + 1].next,
            )
        },
{
    lemma_reply_at(run, trace, answers, i);
}

/// The tool runs in the attempt that was begun, with the network approval that has begun around it.
pub proof fn law_begun_attempt_is_made<'a, T: ToolTypes>(
    run: Run<'a, T>,
    trace: Seq<Progress<'a, T>>,
    answers: Seq<Answer<T>>,
    i: int,
    network_approval: Option<ActiveNetworkApproval<T>>,
)
    requires
        crate::dialogue::is_dialogue(run, trace, answers),
        0 <= i < answers.len(),
        answers[i] == Answer::<T>::BeginNetworkApproval(network_approval),
    ensures
        trace[i].next is BeginNetworkApproval,
        trace[i + 1] == (Progress {
            record: None,
            next: Step::<'a, T>::Attempt(
                AskAttempt {
                    run,
                    stage: trace[i].next->BeginNetworkApproval_0.stage,
                    attempt: trace[i].next->BeginNetworkApproval_0.attempt,
                    network_approval,
                },
            ),
        }),
{
    lemma_reply_at(run, trace, answers, i);
}

/// `p` is where a run goes after an attempt of `stage` whose result, once its network approval was
/// settled, is `result`: to the end, with that result, unless it is a first attempt that the sandbox
/// denied. Then the inbox is read again, for that denial.
pub open spec fn follows_attempt<'a, T: ToolTypes>(
    run: Run<'a, T>,
    stage: AttemptStage,
    result: Result<T::Out, ToolError<T>>,
    deferred_network_approval: Option<T::DeferredNetworkApproval>,
    p: Progress<'a, T>,
) -> bool {
    &&& p.record is None
    &&& match result {
        Ok(output) => p.next == Step::<'a, T>::Done(
            Ok(OrchestratorRunResult { output, deferred_network_approval }),
        ),
        Err(error) => match stage {
            AttemptStage::First { already_approved } => match error {
                ToolError::SandboxDenied(denial) => p.next == Step::<'a, T>::RefreshInbox(
                    AskRefreshInbox { denied: DeniedRun { run, already_approved, denial } },
                ),
                _ => p.next == Step::<'a, T>::Done(Err(error)),
            },
            AttemptStage::Retry => p.next == Step::<'a, T>::Done(Err(error)),
        },
    }
}

/// What the tool gives back is followed at once where no network approval has begun. An immediate
/// approval is finished first, and a failure to finish it takes the place of the tool's result. A
/// deferred one is handed on with the tool's output, or finished where the tool failed, and then it
/// is handed to nobody.
pub proof fn law_attempt_is_followed<'a, T: ToolTypes>(
    run: Run<'a, T>,
    trace: Seq<Progress<'a, T>>,
    answers: Seq<Answer<T>>,
    i: int,
    result: Result<T::Out, ToolError<T>>,
)
    requires
        crate::dialogue::is_dialogue(run, trace, answers),
        0 <= i < answers.len(),
        answers[i] == Answer::<T>::Attempt(result),
    ensures
        trace[i].next is Attempt,
        ({
            let asked = trace[i].next->Attempt_0;
            let stage = asked.stage;
            match asked.network_approval {
                None => follows_attempt(run, stage, result, None, trace[i + 1]),
                Some(ActiveNetworkApproval { mode, approval }) => match mode {
                    NetworkApprovalMode::Immediate => {
                        &&& trace[i + 1] == (Progress {
                            record: None,
                            next: Step::<'a, T>::FinishImmediate(
                                approval,
                                AskFinishImmediate { run, stage, run_result: result },
                            ),
                        })
                        &&& i + 1 < answers.len() ==> {
                            &&& answers[i + 1] matches Answer::FinishImmediate(finished)
                            &&& match finished {
                                Ok(_) => follows_attempt(run, stage, result, None, trace[i + 2]),
                                Err(error) => follows_attempt(
                                    run,
                                    stage,
                                    Err(error),
                                    None,
                                    trace[i + 2],
                                ),
                            }
                        }
                    },
                    NetworkApprovalMode::Deferred => {
                        &&& trace[i + 1] == (Progress {
                            record: None,
                            next: Step::<'a, T>::IntoDeferred(
                                approval,
                                AskIntoDeferred { run, stage, run_result: result },
                            ),
                        })
                        &&& i + 1 < answers.len() ==> {
                            &&& answers[i + 1] matches Answer::IntoDeferred(deferred)
                            &&& match result {
                                Ok(_) => follows_attempt(
                                    run,
                                    stage,
                                    result,
                                    deferred,
                                    trace[i + 2],
                                ),
                                Err(error) => {
                                    &&& trace[i + 2] == (Progress {
                                        record: None,
                                        next: Step::<'a, T>::FinishDeferred(
                                            deferred,
                                            AskFinishDeferred { run, stage, error },
                                        ),
                                    })
                                    &&& i + 2 < answers.len() ==> follows_attempt(
                                        run,
                                        stage,
                                        result,
                                        None,
                                        trace[i + 3],
                                    )
                                },
                            }
                        }
                    },
                },
            }
        }),
{
    lemma_reply_at(run, trace, answers, i);
    if i + 1 < answers.len() {
        lemma_reply_at(run, trace, answers, i + 1);
    }
    if i + 2 < answers.len() {
        lemma_reply_at(run, trace, answers, i + 2);
    }
}

/// After a denial the inbox is read and the tool is asked about external feedback, always and right
/// away, whatever the policy and the denial are.
pub proof fn law_denial_asks_about_feedback<'a, T: ToolTypes>(
    run: Run<'a, T>,
    trace: Seq<Progress<'a, T>>,
    answers: Seq<Answer<T>>,
    i: int,
)
    requires
        crate::dialogue::is_dialogue(run, trace, answers),
        0 <= i < answers.len(),
        trace[i].next is RefreshInbox,
    ensures
        trace[i + 1] == (Progress {
            record: None,
            next: Step::<'a, T>::RetryBlocked(
                AskRetryBlocked { denied: trace[i].next->RefreshInbox_0.denied },
            ),
        }),
{
    lemma_reply_at(run, trace, answers, i);
}

/// Feedback that blocks the retry ends the run with the tool's error for it. Otherwise the run goes
/// on by the denial: where the network policy had no part in it, the tool is asked whether to
/// escalate. Where it had, a managed network is needed to go on, and something to prompt for: without
/// either the denial is the result.
pub proof fn law_feedback_and_network_decide<'a, T: ToolTypes>(
    run: Run<'a, T>,
    trace: Seq<Progress<'a, T>>,
    answers: Seq<Answer<T>>,
    i: int,
    blocked: Option<ToolError<T>>,
)
    requires
        crate::dialogue::is_dialogue(run, trace, answers),
        0 <= i < answers.len(),
        answers[i] == Answer::<T>::RetryBlocked(blocked),
    ensures
        trace[i].next is RetryBlocked,
        ({
            let denied = trace[i].next->RetryBlocked_0.denied;
            match blocked {
                Some(error) => fails_with(trace[i + 1], error),
                None => if denied.denial.network_policy_decision is None {
                    trace[i + 1] == (Progress {
                        record: None,
                        next: Step::<'a, T>::EscalateOnFailure(
                            AskEscalateOnFailure { denied, network_approval_context: None },
                        ),
                    })
                } else if run.turn.network is None {
                    fails_with(trace[i + 1], ToolError::SandboxDenied(denied.denial))
                } else {
                    &&& trace[i + 1] == (Progress {
                        record: None,
                        next: Step::<'a, T>::NetworkApprovalContext(
                            AskNetworkApprovalContext { denied },
                        ),
                    })
                    &&& i + 1 < answers.len() ==> {
                        &&& answers[i + 1] matches Answer::NetworkApprovalContext(context)
                        &&& match context {
                            None => fails_with(
                                trace[i + 2],
                                ToolError::SandboxDenied(denied.denial),
                            ),
                            Some(_) => trace[i + 2] == (Progress {
                                record: None,
                                next: Step::<'a, T>::EscalateOnFailure(
                                    AskEscalateOnFailure {
                                        denied,
                                        network_approval_context: context,
                                    },
                                ),
                            }),
                        }
                    }
                },
            }
        }),
{
    lemma_reply_at(run, trace, answers, i);
    if i + 1 < answers.len() {
        lemma_reply_at(run, trace, answers, i + 1);
    }
}

/// A tool that does not escalate ends the run with the denial of the first attempt.
pub proof fn law_tool_must_escalate<'a, T: ToolTypes>(
    run: Run<'a, T>,
    trace: Seq<Progress<'a, T>>,
    answers: Seq<Answer<T>>,
    i: int,
    escalate: bool,
)
    requires
        crate::dialogue::is_dialogue(run, trace, answers),
        0 <= i < answers.len(),
        answers[i] == Answer::<T>::EscalateOnFailure(escalate),
    ensures
        trace[i].next is EscalateOnFailure,
        ({
            let AskEscalateOnFailure { denied, network_approval_context } =
                trace[i].next->EscalateOnFailure_0;
            if escalate {
                trace[i + 1] == (Progress {
                    record: None,
                    next: Step::<'a, T>::WantsNoSandboxApproval(
                        AskWantsNoSandboxApproval { denied, network_approval_context },
                    ),
                })
            } else {
                fails_with(trace[i + 1], ToolError::SandboxDenied(denied.denial))
            }
        }),
{
    lemma_reply_at(run, trace, answers, i);
}

/// A tool that may not ask for an attempt without a sandbox under the policy ends the run with the
/// denial of the first attempt, even where the first attempt was approved. There is one exception: a
/// network access to prompt for, under `OnRequest`, where the default is to prompt.
pub proof fn law_policy_must_leave_room<'a, T: ToolTypes>(
    run: Run<'a, T>,
    trace: Seq<Progress<'a, T>>,
    answers: Seq<Answer<T>>,
    i: int,
    wants: bool,
)
    requires
        crate::dialogue::is_dialogue(run, trace, answers),
        0 <= i < answers.len(),
        answers[i] == Answer::<T>::WantsNoSandboxApproval(wants),
    ensures
        trace[i].next is WantsNoSandboxApproval,
        ({
            let AskWantsNoSandboxApproval { denied, network_approval_context } =
                trace[i].next->WantsNoSandboxApproval_0;
            let goes_on = Progress {
                record: None,
                next: Step::<'a, T>::BypassApproval(
                    AskBypassApproval { denied, network_approval_context },
                ),
            };
            if wants {
                trace[i + 1] == goes_on
            } else if !(run.approval_policy is OnRequest) || network_approval_context is None {
                &&& fails_with(trace[i + 1], ToolError::SandboxDenied(denied.denial))
                &&& trace.len() == i + 2
            } else {
                &&& trace[i + 1] == (Progress {
                    record: None,
                    next: Step::<'a, T>::NetworkPromptRequirement(
                        AskNetworkPromptRequirement {
                            denied,
                            network_approval_context: network_approval_context->0,
                        },
                    ),
                })
                &&& i + 1 < answers.len() ==> {
                    &&& answers[i + 1] matches Answer::NetworkPromptRequirement(requirement)
                    &&& if requirement is NeedsApproval {
                        trace[i + 2] == goes_on
                    } else {
                        fails_with(trace[i + 2], ToolError::SandboxDenied(denied.denial))
                    }
                }
            }
        }),
{
    lemma_reply_at(run, trace, answers, i);
    if trace[i + 1].next is Done {
        crate::run_laws::law_end_is_last(run, trace, i + 1);
    }
    if i + 1 < answers.len() {
        lemma_reply_at(run, trace, answers, i + 1);
    }
}

/// The approval that is there already will do where the tool says so and no network access is at
/// stake: the second attempt begins. Otherwise a new approval is opened, with the network access at
/// stake and a reason that names its host, or else one that says that the command failed.
pub proof fn law_retry_needs_an_approval<'a, T: ToolTypes>(
    run: Run<'a, T>,
    trace: Seq<Progress<'a, T>>,
    answers: Seq<Answer<T>>,
    i: int,
    bypass: bool,
)
    requires
        crate::dialogue::is_dialogue(run, trace, answers),
        0 <= i < answers.len(),
        answers[i] == Answer::<T>::BypassApproval(bypass),
    ensures
        trace[i].next is BypassApproval,
        ({
            let context = trace[i].next->BypassApproval_0.network_approval_context;
            let reason = opening_reason(trace[i + 1].next);
            if bypass && context is None {
                &&& trace[i + 1].record is None
                &&& begins_second_attempt(run, trace[i + 1].next)
            } else {
                &&& asks_for_approval(run, ApprovalStage::Retry, context, trace[i + 1])
                &&& reason is Some
                &&& match context {
                    Some(context) => reason->0@ == "Network access to \""@ + context.host@
                        + "\" is blocked by policy."@,
                    None => reason->0@ == "command failed; retry without sandbox?"@,
                }
            }
        }),
{
    lemma_reply_at(run, trace, answers, i);
}

/// The hooks of the first approval run under the name of the call. Those of the second run under
/// that name followed by `:retry`, and so under another.
pub proof fn law_hook_runs_have_names_of_their_own<'a, T: ToolTypes>(
    first: &AskPermissionRequestHooks<'a, T>,
    second: &AskPermissionRequestHooks<'a, T>,
    first_id: String,
    second_id: String,
)
    requires
        first.stage is First,
        second.stage is Retry,
        call_ensures(
            AskPermissionRequestHooks::<'a, T>::permission_request_run_id,
            (first,),
            first_id,
        ),
        call_ensures(
            AskPermissionRequestHooks::<'a, T>::permission_request_run_id,
            (second,),
            second_id,
        ),
    ensures
        first_id@ == first.run.call_id@,
        second_id@ == second.run.call_id@ + ":retry"@,
        first.run.call_id == second.run.call_id ==> first_id@ != second_id@,
{
    reveal_strlit(":retry");
    assert(second_id@.len() == second.run.call_id@.len() + ":retry"@.len());
}

/// Whether the network is managed is for the turn to say, and nothing else.
pub proof fn law_network_is_managed_by_the_turn<'a, T: ToolTypes>(run: &Run<'a, T>, active: bool)
    requires
        call_ensures(Run::<'a, T>::managed_network_active, (run,), active),
    ensures
        active <==> run.turn.network is Some,
{
}

/// The reason for a second attempt reads the same for every output.
pub proof fn law_denial_reason_is_stable<O>(output: &O, reason: String)
    requires
        call_ensures(crate::orchestrator::build_denial_reason_from_output::<O>, (output,), reason),
    ensures
        reason@ == "command failed; retry without sandbox?"@,
{
}

} // verus!
