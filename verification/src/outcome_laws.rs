//! What a whole run comes to, by the answers that it was given: when the first attempt is made, and
//! in which sandbox; when the second is made; and what a run without them ends with.

use vstd::prelude::*;

use crate::dialogue::Answer;
use crate::sandboxing::ExecApprovalRequirement;
use crate::sandboxing::NetworkApprovalContext;
use crate::sandboxing::NetworkApprovalMode;
use crate::sandboxing::PermissionRequestDecision;
use crate::sandboxing::SandboxDenial;
use crate::sandboxing::SandboxOverride;
use crate::sandboxing::ToolError;
use crate::sandboxing::ToolTypes;
use crate::step::ApprovalStage;
use crate::step::AskRetryBlocked;
use crate::step::AttemptStage;
use crate::step::DeniedRun;
use crate::step::Progress;
use crate::step::Run;
use crate::step::Step;

verus! {

/// `answer` was given at `k` or later.
pub open spec fn said<T: ToolTypes>(answers: Seq<Answer<T>>, k: int, answer: Answer<T>) -> bool {
    exists|i: int| k <= i < answers.len() && #[trigger] answers[i] == answer
}

/// At `i` the attempt of `stage` was approved: by a hook, or by whoever was prompted.
pub open spec fn granted_at<T: ToolTypes>(
    trace: Seq<Progress<'_, T>>,
    answers: Seq<Answer<T>>,
    stage: ApprovalStage,
    i: int,
) -> bool {
    match trace[i].next {
        Step::PermissionRequestHooks(_, q) => q.stage == stage && answers[i] == Answer::<
            T,
        >::PermissionRequestHooks(Some(PermissionRequestDecision::Allow)),
        Step::Approval(q) => q.stage == stage && (answers[i] matches Answer::Approval(decision)
            && crate::dialogue_laws::lets_go_on(decision)),
        _ => false,
    }
}

/// The attempt of `stage` was approved.
pub open spec fn granted<T: ToolTypes>(
    trace: Seq<Progress<'_, T>>,
    answers: Seq<Answer<T>>,
    stage: ApprovalStage,
) -> bool {
    exists|i: int| 0 <= i < answers.len() && #[trigger] granted_at(trace, answers, stage, i)
}

/// The call needs no approval, by the word of the tool or by the default.
pub open spec fn needs_nothing<T: ToolTypes>(answers: Seq<Answer<T>>) -> bool {
    ||| said(answers, 0, Answer::ExecApprovalRequirement(Some(ExecApprovalRequirement::Skip)))
    ||| said(answers, 0, Answer::DefaultRequirement(ExecApprovalRequirement::Skip))
}

/// An attempt was made after `k`.
pub open spec fn attempted_after<T: ToolTypes>(trace: Seq<Progress<'_, T>>, k: int) -> bool {
    exists|j: int| k < j < trace.len() && (#[trigger] trace[j]).next is Attempt
}

proof fn lemma_first_permission<'a, T: ToolTypes>(
    run: Run<'a, T>,
    trace: Seq<Progress<'a, T>>,
    answers: Seq<Answer<T>>,
    j: int,
)
    requires
        crate::dialogue::is_dialogue(run, trace, answers),
        0 <= j < trace.len(),
    ensures
        7 <= crate::run_laws::rank(trace[j].next) < 29 ==> needs_nothing(answers) || granted(
            trace,
            answers,
            ApprovalStage::First,
        ),
        11 <= crate::run_laws::rank(trace[j].next) < 29 ==> attempted_after(trace, 0),
    decreases j,
{
    if j > 0 {
        let k = j - 1;
        lemma_first_permission(run, trace, answers, k);
        crate::dialogue_laws::lemma_reply_at(run, trace, answers, k);
        crate::run_laws::lemma_rank_at(run, trace, k, j);
        let r = crate::run_laws::rank(trace[j].next);
        if 7 <= r < 29 && crate::run_laws::rank(trace[k].next) < 7 {
            lemma_step_towards_first(trace[k].next, answers[k], trace[j]);
            assert(said(answers, 0, answers[k]));
            assert(granted_at(trace, answers, ApprovalStage::First, k) || needs_nothing(answers));
        }
        if 11 <= r < 29 && crate::run_laws::rank(trace[k].next) < 11 {
            lemma_step_past_attempt(trace[k].next, answers[k], trace[j]);
            assert(trace[k].next is Attempt);
        }
    }
}

proof fn lemma_step_towards_first<'a, T: ToolTypes>(
    step: Step<'a, T>,
    answer: Answer<T>,
    p: Progress<'a, T>,
)
    requires
        crate::dialogue::replies(step, answer, p),
        crate::run_laws::rank(step) < 7 <= crate::run_laws::rank(p.next) < 29,
    ensures
        ({
            ||| answer == Answer::<T>::ExecApprovalRequirement(
                Some(ExecApprovalRequirement::Skip),
            )
            ||| answer == Answer::<T>::DefaultRequirement(ExecApprovalRequirement::Skip)
            ||| step matches Step::PermissionRequestHooks(_, q) && q.stage is First && answer
                == Answer::<T>::PermissionRequestHooks(Some(PermissionRequestDecision::Allow))
            ||| step matches Step::Approval(q) && q.stage is First && (answer matches Answer::Approval(
                decision,
            ) && crate::dialogue_laws::lets_go_on(decision))
        }),
{
}

proof fn lemma_step_past_attempt<'a, T: ToolTypes>(
    step: Step<'a, T>,
    answer: Answer<T>,
    p: Progress<'a, T>,
)
    requires
        crate::dialogue::replies(step, answer, p),
        crate::run_laws::rank(step) < 11 <= crate::run_laws::rank(p.next) < 29,
    ensures
        step is Attempt,
{
}

proof fn lemma_way_to_attempt<'a, T: ToolTypes>(
    run: Run<'a, T>,
    trace: Seq<Progress<'a, T>>,
    answers: Seq<Answer<T>>,
    i: int,
) -> (j: int)
    requires
        crate::dialogue::is_dialogue(run, trace, answers),
        trace.last().next is Done,
        0 <= i < trace.len(),
        trace[i].next is SandboxOverride || trace[i].next is InitialSandbox || trace[i].next
            is BeginNetworkApproval,
    ensures
        i < j < trace.len(),
        j <= i + 3,
        trace[j].next is Attempt,
        trace[i].next matches Step::BeginNetworkApproval(q) ==> trace[j].next->Attempt_0.stage
            == q.stage,
        !(trace[i].next is BeginNetworkApproval) ==> trace[j].next->Attempt_0.stage is First,
    decreases trace.len() - i,
{
    assert(i != trace.len() - 1);
    crate::dialogue_laws::lemma_reply_at(run, trace, answers, i);
    if trace[i].next is BeginNetworkApproval {
        i + 1
    } else if trace[i].next is InitialSandbox {
        assert(i + 1 != trace.len() - 1);
        crate::dialogue_laws::lemma_reply_at(run, trace, answers, i + 1);
        i + 2
    } else {
        assert(i + 1 != trace.len() - 1);
        crate::dialogue_laws::lemma_reply_at(run, trace, answers, i + 1);
        if trace[i + 1].next is BeginNetworkApproval {
            i + 2
        } else {
            assert(i + 2 != trace.len() - 1);
            crate::dialogue_laws::lemma_reply_at(run, trace, answers, i + 2);
            i + 3
        }
    }
}

/// Permission is followed by the attempt that it is for. Where a decision is recorded that lets the
/// call go on, a run that is over has made an attempt within three more answers: the second where
/// the approval was for the second, and else the first.
pub proof fn law_permission_leads_to_its_attempt<'a, T: ToolTypes>(
    run: Run<'a, T>,
    trace: Seq<Progress<'a, T>>,
    answers: Seq<Answer<T>>,
    i: int,
) -> (j: int)
    requires
        crate::dialogue::is_dialogue(run, trace, answers),
        trace.last().next is Done,
        0 <= i < trace.len(),
        trace[i].record matches Some(record) && crate::dialogue_laws::lets_go_on(record.decision),
    ensures
        i > 0,
        i < j < trace.len(),
        j <= i + 3,
        trace[j].next is Attempt,
        trace[j].next->Attempt_0.stage is Retry <==> match trace[i - 1].next {
            Step::PermissionRequestHooks(_, q) => q.stage is Retry,
            Step::Approval(q) => q.stage is Retry,
            _ => false,
        },
{
    crate::dialogue_laws::lemma_reply_at(run, trace, answers, i - 1);
    lemma_way_to_attempt(run, trace, answers, i)
}

/// A run that is over has attempted the call exactly where it was permitted: where it needs no
/// approval, or where the first attempt was approved. A run without an attempt is a rejection.
pub proof fn law_call_is_attempted_exactly_where_permitted<'a, T: ToolTypes>(
    run: Run<'a, T>,
    trace: Seq<Progress<'a, T>>,
    answers: Seq<Answer<T>>,
)
    requires
        crate::dialogue::is_dialogue(run, trace, answers),
        trace.last().next is Done,
    ensures
        attempted_after(trace, 0) <==> needs_nothing(answers) || granted(
            trace,
            answers,
            ApprovalStage::First,
        ),
        !attempted_after(trace, 0) ==> trace.last().next matches Step::Done(
            Err(ToolError::Rejected(_)),
        ),
{
    let n = answers.len() as int;
    assert(n > 0);
    if attempted_after(trace, 0) {
        let j = choose|j: int| 0 < j < trace.len() && (#[trigger] trace[j]).next is Attempt;
        lemma_first_permission(run, trace, answers, j);
    } else {
        crate::dialogue_laws::lemma_reply_at(run, trace, answers, n - 1);
        lemma_first_permission(run, trace, answers, n - 1);
        crate::run_laws::lemma_rank_at(run, trace, 0, n - 1);
        lemma_end_without_attempt(trace[n - 1].next, answers[n - 1], trace[n]);
    }
    if needs_nothing(answers) {
        let i = choose|i: int|
            0 <= i < answers.len() && (#[trigger] answers[i] == Answer::<
                T,
            >::ExecApprovalRequirement(Some(ExecApprovalRequirement::Skip)) || answers[i]
                == Answer::<T>::DefaultRequirement(ExecApprovalRequirement::Skip));
        crate::dialogue_laws::lemma_reply_at(run, trace, answers, i);
        let j = lemma_way_to_attempt(run, trace, answers, i + 1);
        assert(trace[j].next is Attempt);
    }
    if granted(trace, answers, ApprovalStage::First) {
        let i = choose|i: int|
            0 <= i < answers.len() && #[trigger] granted_at(
                trace,
                answers,
                ApprovalStage::First,
                i,
            );
        crate::dialogue_laws::lemma_reply_at(run, trace, answers, i);
        let j = lemma_way_to_attempt(run, trace, answers, i + 1);
        assert(trace[j].next is Attempt);
    }
}

proof fn lemma_end_without_attempt<'a, T: ToolTypes>(
    step: Step<'a, T>,
    answer: Answer<T>,
    p: Progress<'a, T>,
)
    requires
        crate::dialogue::replies(step, answer, p),
        p.next is Done,
        crate::run_laws::rank(step) < 10,
    ensures
        p.next matches Step::Done(Err(ToolError::Rejected(_))),
{
}

/// The first attempt is in the sandbox that the sandbox manager named where the tool does not
/// override it, and without one where the tool does. Nothing else has a say in it.
pub proof fn law_first_attempt_is_in_the_selected_sandbox<'a, T: ToolTypes>(
    run: Run<'a, T>,
    trace: Seq<Progress<'a, T>>,
    answers: Seq<Answer<T>>,
    j: int,
)
    requires
        crate::dialogue::is_dialogue(run, trace, answers),
        0 <= j < trace.len(),
        trace[j].next matches Step::Attempt(q) && q.stage is First,
    ensures
        j >= 3,
        crate::dialogue_laws::keeps_the_turn(run, trace[j].next->Attempt_0.attempt),
        ({
            let sandbox = trace[j].next->Attempt_0.attempt.sandbox;
            ||| answers[j - 2] == Answer::<T>::SandboxOverride(
                SandboxOverride::BypassSandboxFirstAttempt,
            ) && sandbox is Unsandboxed
            ||| answers[j - 3] == Answer::<T>::SandboxOverride(SandboxOverride::NoOverride)
                && answers[j - 2] == Answer::<T>::InitialSandbox(sandbox)
        }),
{
    crate::dialogue_laws::lemma_reply_at(run, trace, answers, j - 1);
    assert(trace[j - 1].next is BeginNetworkApproval);
    crate::dialogue_laws::lemma_reply_at(run, trace, answers, j - 2);
    assert(trace[j - 2].next is SandboxOverride || trace[j - 2].next is InitialSandbox);
    crate::dialogue_laws::lemma_reply_at(run, trace, answers, j - 3);
}

/// The second attempt is without a sandbox and without a helper program, and under the same turn as
/// the first.
pub proof fn law_second_attempt_has_no_sandbox<'a, T: ToolTypes>(
    run: Run<'a, T>,
    trace: Seq<Progress<'a, T>>,
    answers: Seq<Answer<T>>,
    j: int,
)
    requires
        crate::dialogue::is_dialogue(run, trace, answers),
        0 <= j < trace.len(),
        trace[j].next matches Step::Attempt(q) && q.stage is Retry,
    ensures
        crate::dialogue_laws::keeps_the_turn(run, trace[j].next->Attempt_0.attempt),
        trace[j].next->Attempt_0.attempt.sandbox is Unsandboxed,
        trace[j].next->Attempt_0.attempt.codex_linux_sandbox_exe is None,
{
    crate::dialogue_laws::lemma_reply_at(run, trace, answers, j - 1);
}

/// A first attempt that the sandbox denied, in the call or when its immediate network approval was
/// finished, leads to the question about external feedback, for that denial, before the run can end
/// or go on.
pub proof fn law_denied_attempt_asks_about_feedback<'a, T: ToolTypes>(
    run: Run<'a, T>,
    trace: Seq<Progress<'a, T>>,
    answers: Seq<Answer<T>>,
    i: int,
    already_approved: bool,
    denial: SandboxDenial<T>,
) -> (j: int)
    requires
        crate::dialogue::is_dialogue(run, trace, answers),
        trace.last().next is Done,
        0 <= i < answers.len(),
        trace[i].next matches Step::Attempt(q) && q.stage == (AttemptStage::First {
            already_approved,
        }),
        ({
            let immediate = trace[i].next->Attempt_0.network_approval matches Some(active)
                && active.mode is Immediate;
            let denied = Err::<T::Out, ToolError<T>>(ToolError::SandboxDenied(denial));
            ||| answers[i] == Answer::<T>::Attempt(denied) && (immediate ==> i + 1 < answers.len()
                && answers[i + 1] == Answer::<T>::FinishImmediate(Ok(())))
            ||| immediate && i + 1 < answers.len() && answers[i + 1] == Answer::<
                T,
            >::FinishImmediate(Err(ToolError::SandboxDenied(denial)))
        }),
    ensures
        i + 2 <= j <= i + 4,
        j < trace.len() - 1,
        trace[j].next == Step::<'a, T>::RetryBlocked(
            AskRetryBlocked { denied: DeniedRun { run, already_approved, denial } },
        ),
        trace[j - 1].next is RefreshInbox,
{
    crate::dialogue_laws::lemma_reply_at(run, trace, answers, i);
    let result = answers[i]->Attempt_0;
    crate::dialogue_laws::law_attempt_is_followed(run, trace, answers, i, result);
    let k = match trace[i].next->Attempt_0.network_approval {
        None => i + 1,
        Some(active) => match active.mode {
            NetworkApprovalMode::Immediate => i + 2,
            NetworkApprovalMode::Deferred => {
                assert(i + 1 != trace.len() - 1);
                assert(i + 2 != trace.len() - 1);
                i + 3
            },
        },
    };
    assert(trace[k].next is RefreshInbox);
    assert(k != trace.len() - 1);
    crate::dialogue_laws::law_denial_asks_about_feedback(run, trace, answers, k);
    assert(k + 1 != trace.len() - 1);
    k + 1
}

/// The denied run that `step` is about, from the refresh of the inbox to the question about the
/// approval of the second attempt.
spec fn denied_of<'a, T: ToolTypes>(step: Step<'a, T>) -> Option<DeniedRun<'a, T>> {
    match step {
        Step::RefreshInbox(q) => Some(q.denied),
        Step::RetryBlocked(q) => Some(q.denied),
        Step::NetworkApprovalContext(q) => Some(q.denied),
        Step::EscalateOnFailure(q) => Some(q.denied),
        Step::WantsNoSandboxApproval(q) => Some(q.denied),
        Step::NetworkPromptRequirement(q) => Some(q.denied),
        Step::BypassApproval(q) => Some(q.denied),
        _ => None,
    }
}

proof fn lemma_denied_step<'a, T: ToolTypes>(
    step: Step<'a, T>,
    answer: Answer<T>,
    p: Progress<'a, T>,
)
    requires
        crate::dialogue::replies(step, answer, p),
    ensures
        14 <= crate::run_laws::rank(p.next) <= 19 ==> denied_of(p.next) == denied_of(step),
        p.next is Done && 15 <= crate::run_laws::rank(step) <= 18 ==> p.next == Step::<
            'a,
            T,
        >::Done(Err(ToolError::SandboxDenied(denied_of(step)->0.denial))),
        p.next is Done && 19 <= crate::run_laws::rank(step) <= 25 ==> p.next matches Step::Done(
            Err(ToolError::Rejected(_)),
        ),
        13 <= crate::run_laws::rank(step) <= 19 <==> denied_of(step) is Some,
        crate::run_laws::rank(step) <= 25 && 27 <= crate::run_laws::rank(p.next) ==> p.next is Done,
        step is BypassApproval ==> !(p.next is Done),
{
}

proof fn lemma_denied_is_kept<'a, T: ToolTypes>(
    run: Run<'a, T>,
    trace: Seq<Progress<'a, T>>,
    answers: Seq<Answer<T>>,
    k: int,
    j: int,
)
    requires
        crate::dialogue::is_dialogue(run, trace, answers),
        0 <= k <= j < trace.len(),
        trace[k].next is RetryBlocked,
        crate::run_laws::rank(trace[j].next) <= 19,
    ensures
        denied_of(trace[j].next) == denied_of(trace[k].next),
    decreases j - k,
{
    if k < j {
        crate::dialogue_laws::lemma_reply_at(run, trace, answers, j - 1);
        crate::run_laws::lemma_rank_at(run, trace, k, j - 1);
        crate::run_laws::lemma_rank_at(run, trace, j - 1, j);
        lemma_denied_is_kept(run, trace, answers, k, j - 1);
        lemma_denied_step(trace[j - 1].next, answers[j - 1], trace[j]);
    }
}

/// After `k` a network access to prompt for was named.
pub open spec fn network_access_named<T: ToolTypes>(answers: Seq<Answer<T>>, k: int) -> bool {
    exists|context: NetworkApprovalContext<T>| #[trigger]
        said(answers, k, Answer::NetworkApprovalContext(Some(context)))
}

/// After `k` the default was found to be a prompt.
pub open spec fn prompt_is_the_default<T: ToolTypes>(answers: Seq<Answer<T>>, k: int) -> bool {
    exists|reason: Option<String>| #[trigger]
        said(
            answers,
            k,
            Answer::NetworkPromptRequirement(ExecApprovalRequirement::NeedsApproval { reason }),
        )
}

spec fn cleared<'a, T: ToolTypes>(
    run: Run<'a, T>,
    trace: Seq<Progress<'a, T>>,
    answers: Seq<Answer<T>>,
    k: int,
    j: int,
) -> bool {
    let r = crate::run_laws::rank(trace[j].next);
    let denial = denied_of(trace[k].next)->0.denial;
    &&& 15 <= r < 29 ==> answers[k] == Answer::<T>::RetryBlocked(None)
    &&& 16 <= r < 29 ==> (denial.network_policy_decision is Some ==> run.turn.network is Some
        && network_access_named(answers, k))
    &&& 17 <= r < 29 ==> said(answers, k, Answer::EscalateOnFailure(true))
    &&& r == 18 ==> said(answers, k, Answer::WantsNoSandboxApproval(false))
    &&& 19 <= r < 29 ==> said(answers, k, Answer::WantsNoSandboxApproval(true)) || (
    run.approval_policy is OnRequest && denial.network_policy_decision is Some && said(
        answers,
        k,
        Answer::WantsNoSandboxApproval(false),
    ) && prompt_is_the_default(answers, k))
    &&& 25 <= r < 29 ==> (denial.network_policy_decision is None && said(
        answers,
        k,
        Answer::BypassApproval(true),
    )) || granted(trace, answers, ApprovalStage::Retry)
    &&& 27 <= r < 29 ==> attempted_after(trace, k)
}

proof fn lemma_cleared_step<'a, T: ToolTypes>(
    run: Run<'a, T>,
    step: Step<'a, T>,
    answer: Answer<T>,
    p: Progress<'a, T>,
)
    requires
        crate::dialogue::replies(step, answer, p),
        crate::run_laws::belongs_to(run, step),
        14 <= crate::run_laws::rank(step),
    ensures
        ({
            let from = crate::run_laws::rank(step);
            let to = crate::run_laws::rank(p.next);
            let denial = denied_of(step)->0.denial;
            &&& from < 15 <= to < 29 ==> answer == Answer::<T>::RetryBlocked(None)
            &&& from < 16 <= to < 29 ==> (denial.network_policy_decision is Some
                ==> run.turn.network is Some && (answer matches Answer::NetworkApprovalContext(
                Some(_),
            )))
            &&& from < 17 <= to < 29 ==> answer == Answer::<T>::EscalateOnFailure(true)
            &&& to == 18 ==> answer == Answer::<T>::WantsNoSandboxApproval(false)
            &&& from < 19 <= to < 29 ==> answer == Answer::<T>::WantsNoSandboxApproval(true) || (
            from == 18 && run.approval_policy is OnRequest && denial.network_policy_decision is Some
                && (answer matches Answer::NetworkPromptRequirement(
                ExecApprovalRequirement::NeedsApproval { .. },
            )))
            &&& from < 25 <= to < 29 ==> match step {
                Step::BypassApproval(q) => answer == Answer::<T>::BypassApproval(true)
                    && q.network_approval_context is None && denial.network_policy_decision is None,
                Step::PermissionRequestHooks(_, q) => q.stage is Retry && answer == Answer::<
                    T,
                >::PermissionRequestHooks(Some(PermissionRequestDecision::Allow)),
                Step::Approval(q) => q.stage is Retry && (answer matches Answer::Approval(decision)
                    && crate::dialogue_laws::lets_go_on(decision)),
                _ => false,
            }
            &&& from < 27 <= to < 29 ==> step is Attempt
        }),
{
}

proof fn lemma_cleared<'a, T: ToolTypes>(
    run: Run<'a, T>,
    trace: Seq<Progress<'a, T>>,
    answers: Seq<Answer<T>>,
    k: int,
    j: int,
)
    requires
        crate::dialogue::is_dialogue(run, trace, answers),
        0 <= k <= j < trace.len(),
        trace[k].next is RetryBlocked,
    ensures
        cleared(run, trace, answers, k, j),
    decreases j - k,
{
    if k < j {
        let m = j - 1;
        lemma_cleared(run, trace, answers, k, m);
        crate::dialogue_laws::lemma_reply_at(run, trace, answers, m);
        crate::run_laws::lemma_rank_at(run, trace, k, m);
        crate::run_laws::lemma_rank_at(run, trace, m, j);
        lemma_cleared_step(run, trace[m].next, answers[m], trace[j]);
        if crate::run_laws::rank(trace[m].next) <= 19 {
            lemma_denied_is_kept(run, trace, answers, k, m);
        }
        let from = crate::run_laws::rank(trace[m].next);
        let to = crate::run_laws::rank(trace[j].next);
        assert(said(answers, k, answers[m]));
        if from < 15 <= to < 29 {
            assert(m == k);
        }
        if from < 16 <= to < 29 {
            if let Answer::NetworkApprovalContext(Some(context)) = answers[m] {
                assert(said(answers, k, Answer::NetworkApprovalContext(Some(context))));
            }
        }
        if from == 18 && to == 19 {
            if let Answer::NetworkPromptRequirement(
                ExecApprovalRequirement::NeedsApproval { reason },
            ) = answers[m] {
                assert(said(
                    answers,
                    k,
                    Answer::NetworkPromptRequirement(
                        ExecApprovalRequirement::NeedsApproval { reason },
                    ),
                ));
            }
        }
        if from < 25 <= to < 29 {
            if !(trace[m].next is BypassApproval) {
                assert(granted_at(trace, answers, ApprovalStage::Retry, m));
            }
        }
        if from < 27 <= to < 29 {
            assert(trace[m].next is Attempt);
        }
    }
}

/// A run whose first attempt was denied makes a second attempt exactly where all of this holds:
/// external feedback does not block it; where the network policy had a part in the denial, the
/// network is managed and there is an access to prompt for; the tool escalates; the tool may ask
/// for an attempt without a sandbox under the policy, or else the policy is `OnRequest`, the
/// denial is the network policy's and the default is to prompt; and the second attempt is approved,
/// or else the tool can do without a new approval and the denial is not the network policy's.
///
/// Without a second attempt the result is the tool's error for the feedback that blocks it, or a
/// rejection where the approval of the second attempt was asked for, or else the denial of the
/// first attempt, unchanged.
pub proof fn law_second_attempt_exactly_where_cleared<'a, T: ToolTypes>(
    run: Run<'a, T>,
    trace: Seq<Progress<'a, T>>,
    answers: Seq<Answer<T>>,
    k: int,
    denied: DeniedRun<'a, T>,
)
    requires
        crate::dialogue::is_dialogue(run, trace, answers),
        trace.last().next is Done,
        0 <= k < trace.len(),
        trace[k].next == Step::<'a, T>::RetryBlocked(AskRetryBlocked { denied }),
    ensures
        attempted_after(trace, k) <==> {
            let by_network = denied.denial.network_policy_decision is Some;
            &&& answers[k] == Answer::<T>::RetryBlocked(None)
            &&& by_network ==> run.turn.network is Some && network_access_named(answers, k)
            &&& said(answers, k, Answer::EscalateOnFailure(true))
            &&& said(answers, k, Answer::WantsNoSandboxApproval(true)) || (run.approval_policy
                is OnRequest && by_network && said(
                answers,
                k,
                Answer::WantsNoSandboxApproval(false),
            ) && prompt_is_the_default(answers, k))
            &&& (!by_network && said(answers, k, Answer::BypassApproval(true))) || granted(
                trace,
                answers,
                ApprovalStage::Retry,
            )
        },
        !attempted_after(trace, k) ==> {
            ||| answers[k] matches Answer::RetryBlocked(Some(error)) && trace.last().next == Step::<
                'a,
                T,
            >::Done(Err(error))
            ||| answers[k] == Answer::<T>::RetryBlocked(None) && (exists|i: int|
                k < i < trace.len() && (#[trigger] trace[i]).next is BypassApproval)
                && trace.last().next matches Step::Done(Err(ToolError::Rejected(_)))
            ||| answers[k] == Answer::<T>::RetryBlocked(None) && (forall|i: int|
                k < i < trace.len() ==> !((#[trigger] trace[i]).next is BypassApproval))
                && trace.last().next == Step::<'a, T>::Done(
                Err(ToolError::SandboxDenied(denied.denial)),
            )
        },
{
    let n = answers.len() as int;
    assert(k < n);
    crate::dialogue_laws::lemma_reply_at(run, trace, answers, k);
    if attempted_after(trace, k) {
        let j = choose|j: int| k < j < trace.len() && (#[trigger] trace[j]).next is Attempt;
        crate::run_laws::lemma_rank_at(run, trace, k, j);
        lemma_cleared(run, trace, answers, k, j);
    } else {
        lemma_no_second_attempt(run, trace, answers, k, denied);
    }
    if denied.denial.network_policy_decision is None && said(
        answers,
        k,
        Answer::BypassApproval(true),
    ) {
        let i = choose|i: int|
            k <= i < answers.len() && #[trigger] answers[i] == Answer::<T>::BypassApproval(true);
        crate::dialogue_laws::lemma_reply_at(run, trace, answers, i);
        lemma_denied_is_kept(run, trace, answers, k, i);
        let j = lemma_way_to_attempt(run, trace, answers, i + 1);
        assert(trace[j].next is Attempt);
    }
    if granted(trace, answers, ApprovalStage::Retry) {
        let i = choose|i: int|
            0 <= i < answers.len() && #[trigger] granted_at(
                trace,
                answers,
                ApprovalStage::Retry,
                i,
            );
        crate::dialogue_laws::lemma_reply_at(run, trace, answers, i);
        if i < k {
            crate::run_laws::lemma_rank_at(run, trace, i, k);
        }
        let j = lemma_way_to_attempt(run, trace, answers, i + 1);
        assert(trace[j].next is Attempt);
    }
}

proof fn lemma_asked_for_approval<'a, T: ToolTypes>(
    run: Run<'a, T>,
    trace: Seq<Progress<'a, T>>,
    answers: Seq<Answer<T>>,
    k: int,
    j: int,
)
    requires
        crate::dialogue::is_dialogue(run, trace, answers),
        0 <= k <= j < trace.len(),
        trace[k].next is RetryBlocked,
        19 <= crate::run_laws::rank(trace[j].next) < 29,
    ensures
        exists|i: int| k < i <= j && (#[trigger] trace[i]).next is BypassApproval,
    decreases j - k,
{
    if trace[j].next is BypassApproval {
        assert(k < j);
    } else {
        crate::dialogue_laws::lemma_reply_at(run, trace, answers, j - 1);
        lemma_step_after_bypass(trace[j - 1].next, answers[j - 1], trace[j]);
        lemma_asked_for_approval(run, trace, answers, k, j - 1);
    }
}

proof fn lemma_step_after_bypass<'a, T: ToolTypes>(
    step: Step<'a, T>,
    answer: Answer<T>,
    p: Progress<'a, T>,
)
    requires
        crate::dialogue::replies(step, answer, p),
        19 < crate::run_laws::rank(p.next) < 29,
    ensures
        crate::run_laws::rank(step) >= 19,
{
}

proof fn lemma_no_second_attempt<'a, T: ToolTypes>(
    run: Run<'a, T>,
    trace: Seq<Progress<'a, T>>,
    answers: Seq<Answer<T>>,
    k: int,
    denied: DeniedRun<'a, T>,
)
    requires
        crate::dialogue::is_dialogue(run, trace, answers),
        trace.last().next is Done,
        0 <= k < answers.len(),
        trace[k].next == Step::<'a, T>::RetryBlocked(AskRetryBlocked { denied }),
        !attempted_after(trace, k),
    ensures
        ({
            ||| answers[k] matches Answer::RetryBlocked(Some(error)) && trace.last().next == Step::<
                'a,
                T,
            >::Done(Err(error))
            ||| answers[k] == Answer::<T>::RetryBlocked(None) && (exists|i: int|
                k < i < trace.len() && (#[trigger] trace[i]).next is BypassApproval)
                && trace.last().next matches Step::Done(Err(ToolError::Rejected(_)))
            ||| answers[k] == Answer::<T>::RetryBlocked(None) && (forall|i: int|
                k < i < trace.len() ==> !((#[trigger] trace[i]).next is BypassApproval))
                && trace.last().next == Step::<'a, T>::Done(
                Err(ToolError::SandboxDenied(denied.denial)),
            )
        }),
{
    let n = answers.len() as int;
    let m = n - 1;
    crate::dialogue_laws::lemma_reply_at(run, trace, answers, k);
    crate::dialogue_laws::lemma_reply_at(run, trace, answers, m);
    crate::run_laws::lemma_rank_at(run, trace, k, m);
    crate::run_laws::lemma_rank_at(run, trace, m, n);
    lemma_cleared(run, trace, answers, k, m);
    lemma_denied_step(trace[m].next, answers[m], trace[n]);
    let r = crate::run_laws::rank(trace[m].next);
    if m == k {
        assert forall|i: int| k < i < trace.len() implies !((#[trigger] trace[i]).next
            is BypassApproval) by {
            assert(i == n);
        }
    } else {
        assert(r >= 15);
        if r >= 26 {
            lemma_last_is_no_attempt(trace[m].next);
            assert(trace[m].next is Attempt || attempted_after(trace, k));
        } else if r >= 19 {
            lemma_asked_for_approval(run, trace, answers, k, m);
        } else {
            lemma_denied_is_kept(run, trace, answers, k, m);
            assert forall|i: int| k < i < trace.len() implies !((#[trigger] trace[i]).next
                is BypassApproval) by {
                if i <= m {
                    crate::run_laws::lemma_rank_at(run, trace, i, m);
                }
            }
        }
    }
}

proof fn lemma_last_is_no_attempt<T: ToolTypes>(step: Step<'_, T>)
    ensures
        crate::run_laws::rank(step) == 26 ==> step is Attempt,
{
}

} // verus!
