//! Approval, sandbox selection and retry of one tool call.
//!
//! The sequence is approval, a first attempt in the selected sandbox, and, where the sandbox
//! denied that attempt, at most one more attempt without a sandbox. Feedback from outside can
//! stop the second attempt, and so can the tool, the approval policy or a refused approval.

use vstd::prelude::*;

use vstd::string::StringExecFns;

use crate::sandboxing::AskForApproval;
use crate::sandboxing::ExecApprovalRequirement;
use crate::sandboxing::NetworkApprovalContext;
use crate::sandboxing::ToolError;
use crate::sandboxing::ToolTypes;
use crate::sandboxing::TurnContext;
use crate::step::ApprovalStage;
use crate::step::AskBypassApproval;
use crate::step::AskEscalateOnFailure;
use crate::step::AskExecApprovalRequirement;
use crate::step::AskNetworkApprovalContext;
use crate::step::AskNetworkPromptRequirement;
use crate::step::AskRefreshInbox;
use crate::step::AskRetryBlocked;
use crate::step::AskWantsNoSandboxApproval;
use crate::step::DeniedRun;
use crate::step::Progress;
use crate::step::Run;
use crate::step::Step;

verus! {

/// Runs tool calls in the sandboxes of one manager.
pub struct ToolOrchestrator<T: ToolTypes> {
    pub sandbox: T::SandboxManager,
}

impl<T: ToolTypes> ToolOrchestrator<T> {
    pub fn new(sandbox: T::SandboxManager) -> (orchestrator: Self)
        ensures
            orchestrator.sandbox == sandbox,
    {
        ToolOrchestrator { sandbox }
    }

    /// The step that opens the run of a tool call.
    pub open spec fn opening_step<'a>(
        &'a self,
        turn: &'a TurnContext<T>,
        tool_name: &'a str,
        call_id: &'a str,
        approval_policy: &'a AskForApproval<T>,
        use_guardian: bool,
    ) -> Step<'a, T> {
        Step::ExecApprovalRequirement(
            AskExecApprovalRequirement {
                run: Run {
                    manager: &self.sandbox,
                    turn,
                    tool_name,
                    call_id,
                    approval_policy,
                    use_guardian,
                },
            },
        )
    }

    /// Opens the run of a tool call. `use_guardian` says whether the turn's approvals go to the
    /// guardian.
    pub fn run<'a>(
        &'a self,
        turn: &'a TurnContext<T>,
        tool_name: &'a str,
        call_id: &'a str,
        approval_policy: &'a AskForApproval<T>,
        use_guardian: bool,
    ) -> (p: Progress<'a, T>)
        ensures
            p.goes_to(
                self.opening_step(turn, tool_name, call_id, approval_policy, use_guardian),
            ),
    {
        Progress {
            record: None,
            next: Step::ExecApprovalRequirement(
                AskExecApprovalRequirement {
                    run: Run {
                        manager: &self.sandbox,
                        turn,
                        tool_name,
                        call_id,
                        approval_policy,
                        use_guardian,
                    },
                },
            ),
        }
    }
}

/// The reason for a second attempt, as a prompt gives it, when the network was not involved. It
/// is the same for every output.
pub open spec fn denial_reason() -> Seq<char> {
    "command failed; retry without sandbox?"@
}

/// The reason for a second attempt, as a prompt gives it.
pub open spec fn retry_reason<T: ToolTypes>(context: Option<NetworkApprovalContext<T>>) -> Seq<
    char,
> {
    match context {
        Some(context) => "Network access to \""@ + context.host@ + "\" is blocked by policy."@,
        None => denial_reason(),
    }
}

/// The reason for a second attempt after a denial with this output. Its wording does not depend
/// on the output.
pub fn build_denial_reason_from_output<O>(_output: &O) -> (reason: String)
    ensures
        reason@ == denial_reason(),
{
    "command failed; retry without sandbox?".to_owned()
}

fn build_retry_reason<O, T: ToolTypes>(
    output: &O,
    context: &Option<NetworkApprovalContext<T>>,
) -> (reason: String)
    ensures
        reason@ == retry_reason(*context),
{
    match context {
        Some(context) => "Network access to \"".to_owned().concat(context.host.as_str()).concat(
            "\" is blocked by policy.",
        ),
        None => build_denial_reason_from_output(output),
    }
}

impl<'a, T: ToolTypes> DeniedRun<'a, T> {
    /// The end of the run with the denial as it came.
    pub open spec fn surfaced(self) -> Step<'a, T> {
        Step::Done(Err(ToolError::SandboxDenied(self.denial)))
    }

    fn surface(self) -> (step: Step<'a, T>)
        ensures
            step == self.surfaced(),
    {
        Step::Done(Err(ToolError::SandboxDenied(self.denial)))
    }

    /// The step once it is known whether there is a network access to prompt for. A network
    /// policy decision that leaves nothing to prompt for ends the run.
    pub open spec fn with_network_context(
        self,
        network_approval_context: Option<NetworkApprovalContext<T>>,
    ) -> Step<'a, T> {
        if self.denial.network_policy_decision is Some && network_approval_context is None {
            self.surfaced()
        } else {
            Step::EscalateOnFailure(
                AskEscalateOnFailure { denied: self, network_approval_context },
            )
        }
    }

    fn use_network_context(
        self,
        network_approval_context: Option<NetworkApprovalContext<T>>,
    ) -> (step: Step<'a, T>)
        ensures
            step == self.with_network_context(network_approval_context),
    {
        if self.denial.network_policy_decision.is_some() && network_approval_context.is_none() {
            self.surface()
        } else {
            Step::EscalateOnFailure(
                AskEscalateOnFailure { denied: self, network_approval_context },
            )
        }
    }
}

impl<'a, T: ToolTypes> AskRefreshInbox<'a, T> {
    /// Whatever the refresh did, the tool is asked about external feedback next.
    pub open spec fn answered(self, p: Progress<'a, T>) -> bool {
        p.goes_to(Step::RetryBlocked(AskRetryBlocked { denied: self.denied }))
    }

    pub fn answer(self) -> (p: Progress<'a, T>)
        ensures
            self.answered(p),
    {
        Progress {
            record: None,
            next: Step::RetryBlocked(AskRetryBlocked { denied: self.denied }),
        }
    }
}

impl<'a, T: ToolTypes> AskRetryBlocked<'a, T> {
    /// Feedback that blocks the retry ends the run with the tool's error for it. Otherwise the
    /// network policy decision is looked at, in a turn with a managed network.
    pub open spec fn answered(self, blocked: Option<ToolError<T>>, p: Progress<'a, T>) -> bool {
        match blocked {
            Some(error) => p.goes_to(Step::Done(Err(error))),
            None => if self.denied.run.managed_network_active()
                && self.denied.denial.network_policy_decision is Some {
                p.goes_to(
                    Step::NetworkApprovalContext(
                        AskNetworkApprovalContext { denied: self.denied },
                    ),
                )
            } else {
                p.goes_to(self.denied.with_network_context(None))
            },
        }
    }

    pub fn answer(self, blocked: Option<ToolError<T>>) -> (p: Progress<'a, T>)
        ensures
            self.answered(blocked, p),
    {
        let next = match blocked {
            Some(error) => Step::Done(Err(error)),
            None => if self.denied.run.managed_network_active()
                && self.denied.denial.network_policy_decision.is_some() {
                Step::NetworkApprovalContext(AskNetworkApprovalContext { denied: self.denied })
            } else {
                self.denied.use_network_context(None)
            },
        };
        Progress { record: None, next }
    }
}

impl<'a, T: ToolTypes> AskNetworkApprovalContext<'a, T> {
    /// The run goes on with what there is to prompt for, if anything.
    pub open spec fn answered(
        self,
        network_approval_context: Option<NetworkApprovalContext<T>>,
        p: Progress<'a, T>,
    ) -> bool {
        p.goes_to(self.denied.with_network_context(network_approval_context))
    }

    pub fn answer(
        self,
        network_approval_context: Option<NetworkApprovalContext<T>>,
    ) -> (p: Progress<'a, T>)
        ensures
            self.answered(network_approval_context, p),
    {
        Progress { record: None, next: self.denied.use_network_context(network_approval_context) }
    }
}

impl<'a, T: ToolTypes> AskEscalateOnFailure<'a, T> {
    /// A tool that does not escalate ends the run with the denial.
    pub open spec fn answered(self, escalate: bool, p: Progress<'a, T>) -> bool {
        if escalate {
            p.goes_to(
                Step::WantsNoSandboxApproval(
                    AskWantsNoSandboxApproval {
                        denied: self.denied,
                        network_approval_context: self.network_approval_context,
                    },
                ),
            )
        } else {
            p.goes_to(self.denied.surfaced())
        }
    }

    pub fn answer(self, escalate: bool) -> (p: Progress<'a, T>)
        ensures
            self.answered(escalate, p),
    {
        let AskEscalateOnFailure { denied, network_approval_context } = self;
        let next = if escalate {
            Step::WantsNoSandboxApproval(
                AskWantsNoSandboxApproval { denied, network_approval_context },
            )
        } else {
            denied.surface()
        };
        Progress { record: None, next }
    }
}

impl<'a, T: ToolTypes> AskWantsNoSandboxApproval<'a, T> {
    /// Where the policy rules out an attempt without a sandbox, the run ends with the denial. The
    /// one exception is a prompt about network access under `OnRequest`, and it depends on the
    /// default requirement.
    pub open spec fn answered(self, wants: bool, p: Progress<'a, T>) -> bool {
        if wants {
            p.goes_to(
                Step::BypassApproval(
                    AskBypassApproval {
                        denied: self.denied,
                        network_approval_context: self.network_approval_context,
                    },
                ),
            )
        } else {
            match (self.denied.run.approval_policy, self.network_approval_context) {
                (AskForApproval::OnRequest, Some(network_approval_context)) => p.goes_to(
                    Step::NetworkPromptRequirement(
                        AskNetworkPromptRequirement {
                            denied: self.denied,
                            network_approval_context,
                        },
                    ),
                ),
                _ => p.goes_to(self.denied.surfaced()),
            }
        }
    }

    pub fn answer(self, wants: bool) -> (p: Progress<'a, T>)
        ensures
            self.answered(wants, p),
    {
        let AskWantsNoSandboxApproval { denied, network_approval_context } = self;
        let next = if wants {
            Step::BypassApproval(AskBypassApproval { denied, network_approval_context })
        } else {
            match denied.run.approval_policy {
                AskForApproval::OnRequest => match network_approval_context {
                    Some(network_approval_context) => Step::NetworkPromptRequirement(
                        AskNetworkPromptRequirement { denied, network_approval_context },
                    ),
                    None => denied.surface(),
                },
                _ => denied.surface(),
            }
        };
        Progress { record: None, next }
    }
}

impl<'a, T: ToolTypes> AskNetworkPromptRequirement<'a, T> {
    /// Only where the default is to ask may the network prompt be shown.
    pub open spec fn answered(
        self,
        requirement: ExecApprovalRequirement,
        p: Progress<'a, T>,
    ) -> bool {
        if requirement is NeedsApproval {
            p.goes_to(
                Step::BypassApproval(
                    AskBypassApproval {
                        denied: self.denied,
                        network_approval_context: Some(self.network_approval_context),
                    },
                ),
            )
        } else {
            p.goes_to(self.denied.surfaced())
        }
    }

    pub fn answer(self, requirement: ExecApprovalRequirement) -> (p: Progress<'a, T>)
        ensures
            self.answered(requirement, p),
    {
        let AskNetworkPromptRequirement { denied, network_approval_context } = self;
        let next = match requirement {
            ExecApprovalRequirement::NeedsApproval { .. } => Step::BypassApproval(
                AskBypassApproval {
                    denied,
                    network_approval_context: Some(network_approval_context),
                },
            ),
            _ => denied.surface(),
        };
        Progress { record: None, next }
    }
}

impl<'a, T: ToolTypes> AskBypassApproval<'a, T> {
    /// An approval that is already there is not asked for again, unless the retry is about
    /// network access: that is always asked for.
    pub open spec fn answered(self, bypass: bool, p: Progress<'a, T>) -> bool {
        if bypass && self.network_approval_context is None {
            p.goes_to(self.denied.run.escalated_attempt_step())
        } else {
            self.denied.run.opens_approval(
                ApprovalStage::Retry,
                Some(retry_reason(self.network_approval_context)),
                self.network_approval_context,
                p,
            )
        }
    }

    pub fn answer(self, bypass: bool) -> (p: Progress<'a, T>)
        ensures
            self.answered(bypass, p),
    {
        let AskBypassApproval { denied, network_approval_context } = self;
        if bypass && network_approval_context.is_none() {
            Progress { record: None, next: denied.run.begin_escalated_attempt() }
        } else {
            let reason = build_retry_reason(&denied.denial.output, &network_approval_context);
            denied.run.open_approval(ApprovalStage::Retry, Some(reason), network_approval_context)
        }
    }
}

} // verus!
