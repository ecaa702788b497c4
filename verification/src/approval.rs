//! Approval of an attempt: what it needs, who is asked, and what the answer means.
//!
//! Permission request hooks come first. Only where no hook decides is the guardian or the user
//! asked.

use vstd::prelude::*;

use vstd::string::StringExecFns;

use crate::sandboxing::ApprovalCtx;
use crate::sandboxing::ExecApprovalRequirement;
use crate::sandboxing::NetworkApprovalContext;
use crate::sandboxing::NetworkPolicyRuleAction;
use crate::sandboxing::PermissionRequestDecision;
use crate::sandboxing::ReviewDecision;
use crate::sandboxing::ToolDecisionSource;
use crate::sandboxing::ToolError;
use crate::sandboxing::ToolTypes;
use crate::step::ApprovalStage;
use crate::step::AskApproval;
use crate::step::AskDefaultRequirement;
use crate::step::AskExecApprovalRequirement;
use crate::step::AskGuardianRejectionMessage;
use crate::step::AskGuardianReviewId;
use crate::step::AskGuardianTimeoutMessage;
use crate::step::AskPermissionRequestHooks;
use crate::step::AskPermissionRequestPayload;
use crate::step::AskSandboxOverride;
use crate::step::Progress;
use crate::step::Run;
use crate::step::Step;

verus! {

broadcast use vstd::string::group_string_axioms;

impl<'a, T: ToolTypes> Run<'a, T> {
    /// `p` opens the approval of one attempt: with a new review identifier first where the
    /// guardian reviews, with the permission request hooks otherwise.
    pub open spec fn opens_approval(
        self,
        stage: ApprovalStage,
        retry_reason: Option<Seq<char>>,
        network_approval_context: Option<NetworkApprovalContext<T>>,
        p: Progress<'a, T>,
    ) -> bool {
        &&& p.record is None
        &&& if self.use_guardian {
            &&& p.next matches Step::GuardianReviewId(q)
            &&& q.run == self
            &&& q.stage == stage
            &&& crate::step::text_of(q.retry_reason) == retry_reason
            &&& q.network_approval_context == network_approval_context
        } else {
            &&& p.next matches Step::PermissionRequestPayload(q)
            &&& q.run == self
            &&& q.stage == stage
            &&& q.approval_ctx.guardian_review_id is None
            &&& crate::step::text_of(q.approval_ctx.retry_reason) == retry_reason
            &&& q.approval_ctx.network_approval_context == network_approval_context
        }
    }

    pub(crate) fn open_approval(
        self,
        stage: ApprovalStage,
        retry_reason: Option<String>,
        network_approval_context: Option<NetworkApprovalContext<T>>,
    ) -> (p: Progress<'a, T>)
        ensures
            self.opens_approval(
                stage,
                crate::step::text_of(retry_reason),
                network_approval_context,
                p,
            ),
    {
        let next = if self.use_guardian {
            Step::GuardianReviewId(
                AskGuardianReviewId { run: self, stage, retry_reason, network_approval_context },
            )
        } else {
            let approval_ctx = ApprovalCtx {
                guardian_review_id: None,
                retry_reason,
                network_approval_context,
            };
            Step::PermissionRequestPayload(
                AskPermissionRequestPayload { run: self, stage, approval_ctx },
            )
        };
        Progress { record: None, next }
    }

    /// What `requirement` leads to.
    pub open spec fn meets_requirement(
        self,
        requirement: ExecApprovalRequirement,
        p: Progress<'a, T>,
    ) -> bool {
        match requirement {
            ExecApprovalRequirement::Skip => p.records(
                self.record_of(ReviewDecision::Approved, ToolDecisionSource::Config),
                Step::SandboxOverride(
                    AskSandboxOverride { run: self, already_approved: false },
                ),
            ),
            ExecApprovalRequirement::Forbidden { reason } => p.goes_to(
                Step::Done(Err(ToolError::Rejected(reason))),
            ),
            ExecApprovalRequirement::NeedsApproval { reason } => self.opens_approval(
                ApprovalStage::First,
                crate::step::text_of(reason),
                None,
                p,
            ),
        }
    }

    fn meet_requirement(self, requirement: ExecApprovalRequirement) -> (p: Progress<'a, T>)
        ensures
            self.meets_requirement(requirement, p),
    {
        match requirement {
            ExecApprovalRequirement::Skip => Progress {
                record: Some(self.new_record(ReviewDecision::Approved, ToolDecisionSource::Config)),
                next: Step::SandboxOverride(
                    AskSandboxOverride { run: self, already_approved: false },
                ),
            },
            ExecApprovalRequirement::Forbidden { reason } => Progress {
                record: None,
                next: Step::Done(Err(ToolError::Rejected(reason))),
            },
            ExecApprovalRequirement::NeedsApproval { reason } => self.open_approval(
                ApprovalStage::First,
                reason,
                None,
            ),
        }
    }

    /// The step after the attempt of `stage` was approved.
    pub open spec fn approved_step(self, stage: ApprovalStage) -> Step<'a, T> {
        match stage {
            ApprovalStage::First => Step::SandboxOverride(
                AskSandboxOverride { run: self, already_approved: true },
            ),
            ApprovalStage::Retry => self.escalated_attempt_step(),
        }
    }

    fn proceed(self, stage: ApprovalStage) -> (step: Step<'a, T>)
        ensures
            step == self.approved_step(stage),
    {
        match stage {
            ApprovalStage::First => Step::SandboxOverride(
                AskSandboxOverride { run: self, already_approved: true },
            ),
            ApprovalStage::Retry => self.begin_escalated_attempt(),
        }
    }

    /// `next` follows `decision`: a permitting one goes on to the attempt, any other ends the run
    /// with a rejection in the words of whoever decided.
    pub open spec fn follows_decision(
        self,
        stage: ApprovalStage,
        guardian_review_id: Option<String>,
        decision: ReviewDecision<T>,
        next: Step<'a, T>,
    ) -> bool {
        if decision.permits() {
            next == self.approved_step(stage)
        } else if decision is TimedOut {
            next == Step::<'a, T>::GuardianTimeoutMessage(AskGuardianTimeoutMessage { stage })
        } else if decision is NetworkPolicyAmendment {
            next.is_rejected_by_user()
        } else {
            match guardian_review_id {
                Some(review_id) => next == Step::<'a, T>::GuardianRejectionMessage(
                    AskGuardianRejectionMessage { stage, review_id },
                ),
                None => next.is_rejected_by_user(),
            }
        }
    }

    fn follow_decision(
        self,
        stage: ApprovalStage,
        guardian_review_id: Option<String>,
        decision: &ReviewDecision<T>,
    ) -> (next: Step<'a, T>)
        ensures
            self.follows_decision(stage, guardian_review_id, *decision, next),
    {
        match decision {
            ReviewDecision::Denied | ReviewDecision::Abort => match guardian_review_id {
                Some(review_id) => Step::GuardianRejectionMessage(
                    AskGuardianRejectionMessage { stage, review_id },
                ),
                None => reject_by_user(),
            },
            ReviewDecision::TimedOut => Step::GuardianTimeoutMessage(
                AskGuardianTimeoutMessage { stage },
            ),
            ReviewDecision::Approved => self.proceed(stage),
            ReviewDecision::ApprovedExecpolicyAmendment { .. } => self.proceed(stage),
            ReviewDecision::ApprovedForSession => self.proceed(stage),
            ReviewDecision::NetworkPolicyAmendment { network_policy_amendment } => {
                match network_policy_amendment.action {
                    NetworkPolicyRuleAction::Allow => self.proceed(stage),
                    NetworkPolicyRuleAction::Deny => reject_by_user(),
                }
            },
        }
    }
}

fn reject_by_user<'a, T: ToolTypes>() -> (step: Step<'a, T>)
    ensures
        step.is_rejected_by_user(),
{
    Step::Done(Err(ToolError::Rejected("rejected by user".to_owned())))
}

impl<'a, T: ToolTypes> AskExecApprovalRequirement<'a, T> {
    /// What the tool says holds; where it says nothing, the default decides.
    pub open spec fn answered(
        self,
        requirement: Option<ExecApprovalRequirement>,
        p: Progress<'a, T>,
    ) -> bool {
        match requirement {
            Some(requirement) => self.run.meets_requirement(requirement, p),
            None => p.goes_to(
                Step::DefaultRequirement(AskDefaultRequirement { run: self.run }),
            ),
        }
    }

    pub fn answer(self, requirement: Option<ExecApprovalRequirement>) -> (p: Progress<'a, T>)
        ensures
            self.answered(requirement, p),
    {
        match requirement {
            Some(requirement) => self.run.meet_requirement(requirement),
            None => Progress {
                record: None,
                next: Step::DefaultRequirement(AskDefaultRequirement { run: self.run }),
            },
        }
    }
}

impl<'a, T: ToolTypes> AskDefaultRequirement<'a, T> {
    /// The default requirement holds.
    pub open spec fn answered(
        self,
        requirement: ExecApprovalRequirement,
        p: Progress<'a, T>,
    ) -> bool {
        self.run.meets_requirement(requirement, p)
    }

    pub fn answer(self, requirement: ExecApprovalRequirement) -> (p: Progress<'a, T>)
        ensures
            self.answered(requirement, p),
    {
        self.run.meet_requirement(requirement)
    }
}

impl<'a, T: ToolTypes> AskGuardianReviewId<'a, T> {
    /// The approval goes on under the new review identifier.
    pub open spec fn answered(self, review_id: String, p: Progress<'a, T>) -> bool {
        p.goes_to(
            Step::PermissionRequestPayload(
                AskPermissionRequestPayload {
                    run: self.run,
                    stage: self.stage,
                    approval_ctx: ApprovalCtx {
                        guardian_review_id: Some(review_id),
                        retry_reason: self.retry_reason,
                        network_approval_context: self.network_approval_context,
                    },
                },
            ),
        )
    }

    pub fn answer(self, review_id: String) -> (p: Progress<'a, T>)
        ensures
            self.answered(review_id, p),
    {
        let approval_ctx = ApprovalCtx {
            guardian_review_id: Some(review_id),
            retry_reason: self.retry_reason,
            network_approval_context: self.network_approval_context,
        };
        Progress {
            record: None,
            next: Step::PermissionRequestPayload(
                AskPermissionRequestPayload { run: self.run, stage: self.stage, approval_ctx },
            ),
        }
    }
}

impl<'a, T: ToolTypes> AskPermissionRequestPayload<'a, T> {
    /// The hooks are asked where there is something to ask them; otherwise the prompt follows.
    pub open spec fn answered(
        self,
        permission_request: Option<T::PermissionRequest>,
        p: Progress<'a, T>,
    ) -> bool {
        match permission_request {
            Some(permission_request) => p.goes_to(
                Step::PermissionRequestHooks(
                    permission_request,
                    AskPermissionRequestHooks {
                        run: self.run,
                        stage: self.stage,
                        approval_ctx: self.approval_ctx,
                    },
                ),
            ),
            None => p.goes_to(
                Step::Approval(
                    AskApproval {
                        run: self.run,
                        stage: self.stage,
                        approval_ctx: self.approval_ctx,
                    },
                ),
            ),
        }
    }

    pub fn answer(self, permission_request: Option<T::PermissionRequest>) -> (p: Progress<'a, T>)
        ensures
            self.answered(permission_request, p),
    {
        let AskPermissionRequestPayload { run, stage, approval_ctx } = self;
        let next = match permission_request {
            Some(permission_request) => Step::PermissionRequestHooks(
                permission_request,
                AskPermissionRequestHooks { run, stage, approval_ctx },
            ),
            None => Step::Approval(AskApproval { run, stage, approval_ctx }),
        };
        Progress { record: None, next }
    }
}

impl<'a, T: ToolTypes> AskPermissionRequestHooks<'a, T> {
    /// The name of the hook run: that of the call, marked where the approval is for a retry.
    pub open spec fn run_id(self) -> Seq<char> {
        match self.stage {
            ApprovalStage::First => self.run.call_id@,
            ApprovalStage::Retry => self.run.call_id@ + ":retry"@,
        }
    }

    pub fn permission_request_run_id(&self) -> (run_id: String)
        ensures
            run_id@ == self.run_id(),
    {
        match self.stage {
            ApprovalStage::First => self.run.call_id.to_owned(),
            ApprovalStage::Retry => self.run.call_id.to_owned().concat(":retry"),
        }
    }

    /// A hook's decision is final: it is recorded as one of the configuration, and nobody is
    /// prompted. Only where no hook decides does the prompt follow.
    pub open spec fn answered(
        self,
        decision: Option<PermissionRequestDecision>,
        p: Progress<'a, T>,
    ) -> bool {
        match decision {
            Some(PermissionRequestDecision::Allow) => p.records(
                self.run.record_of(ReviewDecision::Approved, ToolDecisionSource::Config),
                self.run.approved_step(self.stage),
            ),
            Some(PermissionRequestDecision::Deny { message }) => p.records(
                self.run.record_of(ReviewDecision::Denied, ToolDecisionSource::Config),
                Step::Done(Err(ToolError::Rejected(message))),
            ),
            None => p.goes_to(
                Step::Approval(
                    AskApproval {
                        run: self.run,
                        stage: self.stage,
                        approval_ctx: self.approval_ctx,
                    },
                ),
            ),
        }
    }

    pub fn answer(self, decision: Option<PermissionRequestDecision>) -> (p: Progress<'a, T>)
        ensures
            self.answered(decision, p),
    {
        match decision {
            Some(PermissionRequestDecision::Allow) => Progress {
                record: Some(self.run.new_record(ReviewDecision::Approved, ToolDecisionSource::Config)),
                next: self.run.proceed(self.stage),
            },
            Some(PermissionRequestDecision::Deny { message }) => Progress {
                record: Some(self.run.new_record(ReviewDecision::Denied, ToolDecisionSource::Config)),
                next: Step::Done(Err(ToolError::Rejected(message))),
            },
            None => Progress {
                record: None,
                next: Step::Approval(
                    AskApproval {
                        run: self.run,
                        stage: self.stage,
                        approval_ctx: self.approval_ctx,
                    },
                ),
            },
        }
    }
}

impl<'a, T: ToolTypes> AskApproval<'a, T> {
    /// Who answers the prompt.
    pub open spec fn source(self) -> ToolDecisionSource {
        if self.run.use_guardian {
            ToolDecisionSource::AutomatedReviewer
        } else {
            ToolDecisionSource::User
        }
    }

    /// The decision is recorded and followed.
    pub open spec fn answered(self, decision: ReviewDecision<T>, p: Progress<'a, T>) -> bool {
        &&& p.record == Some(self.run.record_of(decision, self.source()))
        &&& self.run.follows_decision(
            self.stage,
            self.approval_ctx.guardian_review_id,
            decision,
            p.next,
        )
    }

    pub fn answer(self, decision: ReviewDecision<T>) -> (p: Progress<'a, T>)
        ensures
            self.answered(decision, p),
    {
        let source = if self.run.use_guardian {
            ToolDecisionSource::AutomatedReviewer
        } else {
            ToolDecisionSource::User
        };
        let record = self.run.new_record(decision, source);
        let next = self.run.follow_decision(
            self.stage,
            self.approval_ctx.guardian_review_id,
            &record.decision,
        );
        Progress { record: Some(record), next }
    }
}

impl AskGuardianRejectionMessage {
    /// The run ends with the guardian's words.
    pub open spec fn answered<T: ToolTypes>(self, message: String, p: Progress<'_, T>) -> bool {
        p.goes_to(Step::Done(Err(ToolError::Rejected(message))))
    }

    pub fn answer<'a, T: ToolTypes>(self, message: String) -> (p: Progress<'a, T>)
        ensures
            self.answered(message, p),
    {
        Progress { record: None, next: Step::Done(Err(ToolError::Rejected(message))) }
    }
}

impl AskGuardianTimeoutMessage {
    /// The run ends with the words for a review that took too long.
    pub open spec fn answered<T: ToolTypes>(self, message: String, p: Progress<'_, T>) -> bool {
        p.goes_to(Step::Done(Err(ToolError::Rejected(message))))
    }

    pub fn answer<'a, T: ToolTypes>(self, message: String) -> (p: Progress<'a, T>)
        ensures
            self.answered(message, p),
    {
        Progress { record: None, next: Step::Done(Err(ToolError::Rejected(message))) }
    }
}

} // verus!
