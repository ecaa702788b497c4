//! One attempt of a tool call: its sandbox, its network approval, and the call itself.

use vstd::prelude::*;

use crate::sandboxing::ActiveNetworkApproval;
use crate::sandboxing::NetworkApprovalMode;
use crate::sandboxing::SandboxOverride;
use crate::sandboxing::SandboxType;
use crate::sandboxing::ToolError;
use crate::sandboxing::ToolTypes;
use crate::step::AskAttempt;
use crate::step::AskBeginNetworkApproval;
use crate::step::AskFinishDeferred;
use crate::step::AskFinishImmediate;
use crate::step::AskInitialSandbox;
use crate::step::AskIntoDeferred;
use crate::step::AskRefreshInbox;
use crate::step::AskSandboxOverride;
use crate::step::AttemptStage;
use crate::step::DeniedRun;
use crate::step::OrchestratorRunResult;
use crate::step::Progress;
use crate::step::Run;
use crate::step::Step;

verus! {

impl<'a, T: ToolTypes> Run<'a, T> {
    /// The step after an attempt of `stage` ended with `result`. Success ends the run, and so does
    /// any failure but one: a first attempt that the sandbox denied may be followed by a second.
    pub open spec fn after_attempt(
        self,
        stage: AttemptStage,
        result: Result<T::Out, ToolError<T>>,
        deferred_network_approval: Option<T::DeferredNetworkApproval>,
    ) -> Step<'a, T> {
        match result {
            Ok(output) => Step::Done(
                Ok(OrchestratorRunResult { output, deferred_network_approval }),
            ),
            Err(error) => match (stage, error) {
                (
                    AttemptStage::First { already_approved },
                    ToolError::SandboxDenied(denial),
                ) => Step::RefreshInbox(
                    AskRefreshInbox { denied: DeniedRun { run: self, already_approved, denial } },
                ),
                _ => Step::Done(Err(error)),
            },
        }
    }

    fn finish_attempt(
        self,
        stage: AttemptStage,
        result: Result<T::Out, ToolError<T>>,
        deferred_network_approval: Option<T::DeferredNetworkApproval>,
    ) -> (step: Step<'a, T>)
        ensures
            step == self.after_attempt(stage, result, deferred_network_approval),
    {
        match result {
            Ok(output) => Step::Done(
                Ok(OrchestratorRunResult { output, deferred_network_approval }),
            ),
            Err(error) => match stage {
                AttemptStage::First { already_approved } => match error {
                    ToolError::SandboxDenied(denial) => Step::RefreshInbox(
                        AskRefreshInbox {
                            denied: DeniedRun { run: self, already_approved, denial },
                        },
                    ),
                    ToolError::Rejected(message) => Step::Done(Err(ToolError::Rejected(message))),
                    ToolError::Codex(error) => Step::Done(Err(ToolError::Codex(error))),
                },
                AttemptStage::Retry => Step::Done(Err(error)),
            },
        }
    }
}

impl<'a, T: ToolTypes> AskSandboxOverride<'a, T> {
    /// Without an override, the sandbox manager selects the sandbox.
    pub open spec fn answered(self, sandbox_override: SandboxOverride, p: Progress<'a, T>) -> bool {
        match sandbox_override {
            SandboxOverride::BypassSandboxFirstAttempt => p.goes_to(
                self.run.first_attempt_step(self.already_approved, SandboxType::Unsandboxed),
            ),
            SandboxOverride::NoOverride => p.goes_to(
                Step::InitialSandbox(
                    AskInitialSandbox { run: self.run, already_approved: self.already_approved },
                ),
            ),
        }
    }

    pub fn answer(self, sandbox_override: SandboxOverride) -> (p: Progress<'a, T>)
        ensures
            self.answered(sandbox_override, p),
    {
        let next = match sandbox_override {
            SandboxOverride::BypassSandboxFirstAttempt => self.run.begin_first_attempt(
                self.already_approved,
                SandboxType::Unsandboxed,
            ),
            SandboxOverride::NoOverride => Step::InitialSandbox(
                AskInitialSandbox { run: self.run, already_approved: self.already_approved },
            ),
        };
        Progress { record: None, next }
    }
}

impl<'a, T: ToolTypes> AskInitialSandbox<'a, T> {
    /// The first attempt runs in the selected sandbox.
    pub open spec fn answered(self, sandbox: SandboxType<T>, p: Progress<'a, T>) -> bool {
        p.goes_to(self.run.first_attempt_step(self.already_approved, sandbox))
    }

    pub fn answer(self, sandbox: SandboxType<T>) -> (p: Progress<'a, T>)
        ensures
            self.answered(sandbox, p),
    {
        Progress {
            record: None,
            next: self.run.begin_first_attempt(self.already_approved, sandbox),
        }
    }
}

impl<'a, T: ToolTypes> AskBeginNetworkApproval<'a, T> {
    /// The tool runs, with or without a network approval around it.
    pub open spec fn answered(
        self,
        network_approval: Option<ActiveNetworkApproval<T>>,
        p: Progress<'a, T>,
    ) -> bool {
        p.goes_to(
            Step::Attempt(
                AskAttempt {
                    run: self.run,
                    stage: self.stage,
                    attempt: self.attempt,
                    network_approval,
                },
            ),
        )
    }

    pub fn answer(self, network_approval: Option<ActiveNetworkApproval<T>>) -> (p: Progress<'a, T>)
        ensures
            self.answered(network_approval, p),
    {
        Progress {
            record: None,
            next: Step::Attempt(
                AskAttempt {
                    run: self.run,
                    stage: self.stage,
                    attempt: self.attempt,
                    network_approval,
                },
            ),
        }
    }
}

impl<'a, T: ToolTypes> AskAttempt<'a, T> {
    /// A network approval that has begun is brought to its end, whatever the tool gave back.
    pub open spec fn answered(
        self,
        run_result: Result<T::Out, ToolError<T>>,
        p: Progress<'a, T>,
    ) -> bool {
        match self.network_approval {
            None => p.goes_to(self.run.after_attempt(self.stage, run_result, None)),
            Some(active) => match active.mode {
                NetworkApprovalMode::Immediate => p.goes_to(
                    Step::FinishImmediate(
                        active.approval,
                        AskFinishImmediate { run: self.run, stage: self.stage, run_result },
                    ),
                ),
                NetworkApprovalMode::Deferred => p.goes_to(
                    Step::IntoDeferred(
                        active.approval,
                        AskIntoDeferred { run: self.run, stage: self.stage, run_result },
                    ),
                ),
            },
        }
    }

    pub fn answer(self, run_result: Result<T::Out, ToolError<T>>) -> (p: Progress<'a, T>)
        ensures
            self.answered(run_result, p),
    {
        let AskAttempt { run, stage, network_approval, .. } = self;
        let next = match network_approval {
            None => run.finish_attempt(stage, run_result, None),
            Some(ActiveNetworkApproval { mode, approval }) => match mode {
                NetworkApprovalMode::Immediate => Step::FinishImmediate(
                    approval,
                    AskFinishImmediate { run, stage, run_result },
                ),
                NetworkApprovalMode::Deferred => Step::IntoDeferred(
                    approval,
                    AskIntoDeferred { run, stage, run_result },
                ),
            },
        };
        Progress { record: None, next }
    }
}

impl<'a, T: ToolTypes> AskFinishImmediate<'a, T> {
    /// A failure to end the approval takes the place of the tool's own result.
    pub open spec fn answered(
        self,
        finalize_result: Result<(), ToolError<T>>,
        p: Progress<'a, T>,
    ) -> bool {
        match finalize_result {
            Ok(_) => p.goes_to(self.run.after_attempt(self.stage, self.run_result, None)),
            Err(error) => p.goes_to(self.run.after_attempt(self.stage, Err(error), None)),
        }
    }

    pub fn answer(self, finalize_result: Result<(), ToolError<T>>) -> (p: Progress<'a, T>)
        ensures
            self.answered(finalize_result, p),
    {
        let result = match finalize_result {
            Ok(_) => self.run_result,
            Err(error) => Err(error),
        };
        Progress { record: None, next: self.run.finish_attempt(self.stage, result, None) }
    }
}

impl<'a, T: ToolTypes> AskIntoDeferred<'a, T> {
    /// The deferred approval goes to the caller with the tool's output; a failed attempt ends it.
    pub open spec fn answered(
        self,
        deferred: Option<T::DeferredNetworkApproval>,
        p: Progress<'a, T>,
    ) -> bool {
        match self.run_result {
            Ok(_) => p.goes_to(self.run.after_attempt(self.stage, self.run_result, deferred)),
            Err(error) => p.goes_to(
                Step::FinishDeferred(
                    deferred,
                    AskFinishDeferred { run: self.run, stage: self.stage, error },
                ),
            ),
        }
    }

    pub fn answer(self, deferred: Option<T::DeferredNetworkApproval>) -> (p: Progress<'a, T>)
        ensures
            self.answered(deferred, p),
    {
        let AskIntoDeferred { run, stage, run_result } = self;
        let next = match run_result {
            Ok(output) => run.finish_attempt(stage, Ok(output), deferred),
            Err(error) => Step::FinishDeferred(deferred, AskFinishDeferred { run, stage, error }),
        };
        Progress { record: None, next }
    }
}

impl<'a, T: ToolTypes> AskFinishDeferred<'a, T> {
    /// The attempt ends with the tool's failure, and no approval is left.
    pub open spec fn answered(self, p: Progress<'a, T>) -> bool {
        p.goes_to(self.run.after_attempt(self.stage, Err(self.error), None))
    }

    pub fn answer(self) -> (p: Progress<'a, T>)
        ensures
            self.answered(p),
    {
        Progress { record: None, next: self.run.finish_attempt(self.stage, Err(self.error), None) }
    }
}

} // verus!
