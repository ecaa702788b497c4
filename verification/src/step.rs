//! The steps of a run.
//!
//! A run is a dialogue. Everything that only the surrounding program can do (asking the tool,
//! prompting the user, running the command) is a question in a [`Step`]; the program answers it
//! with the `answer` method of the question, and gets the next step.

use vstd::prelude::*;

use crate::sandboxing::ActiveNetworkApproval;
use crate::sandboxing::ApprovalCtx;
use crate::sandboxing::AskForApproval;
use crate::sandboxing::DecisionRecord;
use crate::sandboxing::NetworkApprovalContext;
use crate::sandboxing::ReviewDecision;
use crate::sandboxing::SandboxAttempt;
use crate::sandboxing::SandboxDenial;
use crate::sandboxing::SandboxType;
use crate::sandboxing::ToolDecisionSource;
use crate::sandboxing::ToolError;
use crate::sandboxing::ToolTypes;
use crate::sandboxing::TurnContext;

verus! {

/// What a successful run gives back.
pub struct OrchestratorRunResult<T: ToolTypes> {
    pub output: T::Out,
    pub deferred_network_approval: Option<T::DeferredNetworkApproval>,
}

/// What stays the same through one run.
pub struct Run<'a, T: ToolTypes> {
    pub manager: &'a T::SandboxManager,
    pub turn: &'a TurnContext<T>,
    pub tool_name: &'a str,
    pub call_id: &'a str,
    pub approval_policy: &'a AskForApproval<T>,
    pub use_guardian: bool,
}

/// Which attempt an approval is for.
#[derive(Clone, Copy, Debug, PartialEq, Eq, Structural)]
pub enum ApprovalStage {
    First,
    Retry,
}

/// Which attempt is being made.
#[derive(Clone, Copy, Debug, PartialEq, Eq, Structural)]
pub enum AttemptStage {
    First { already_approved: bool },
    Retry,
}

/// A run whose first attempt the sandbox denied.
pub struct DeniedRun<'a, T: ToolTypes> {
    pub run: Run<'a, T>,
    pub already_approved: bool,
    pub denial: SandboxDenial<T>,
}

/// Asks the tool which approval the call needs; the tool may leave it open.
pub struct AskExecApprovalRequirement<'a, T: ToolTypes> {
    pub run: Run<'a, T>,
}

/// Asks which approval a call needs by the approval policy and the file system policy alone.
pub struct AskDefaultRequirement<'a, T: ToolTypes> {
    pub run: Run<'a, T>,
}

/// Asks for a new identifier of a guardian review.
pub struct AskGuardianReviewId<'a, T: ToolTypes> {
    pub run: Run<'a, T>,
    pub stage: ApprovalStage,
    pub retry_reason: Option<String>,
    pub network_approval_context: Option<NetworkApprovalContext<T>>,
}

/// Asks the tool what the permission request hooks are to be asked, if anything.
pub struct AskPermissionRequestPayload<'a, T: ToolTypes> {
    pub run: Run<'a, T>,
    pub stage: ApprovalStage,
    pub approval_ctx: ApprovalCtx<T>,
}

/// Asks the permission request hooks.
pub struct AskPermissionRequestHooks<'a, T: ToolTypes> {
    pub run: Run<'a, T>,
    pub stage: ApprovalStage,
    pub approval_ctx: ApprovalCtx<T>,
}

/// Asks the guardian or the user.
pub struct AskApproval<'a, T: ToolTypes> {
    pub run: Run<'a, T>,
    pub stage: ApprovalStage,
    pub approval_ctx: ApprovalCtx<T>,
}

/// Asks for the words with which the guardian rejected a call.
pub struct AskGuardianRejectionMessage {
    pub stage: ApprovalStage,
    pub review_id: String,
}

/// Asks for the words that stand for a guardian review that took too long.
pub struct AskGuardianTimeoutMessage {
    pub stage: ApprovalStage,
}

/// Asks the tool whether its first attempt leaves the sandbox out.
pub struct AskSandboxOverride<'a, T: ToolTypes> {
    pub run: Run<'a, T>,
    pub already_approved: bool,
}

/// Asks the sandbox manager for the sandbox of the first attempt.
pub struct AskInitialSandbox<'a, T: ToolTypes> {
    pub run: Run<'a, T>,
    pub already_approved: bool,
}

/// Asks for the network approval of an attempt to begin, where it needs one.
pub struct AskBeginNetworkApproval<'a, T: ToolTypes> {
    pub run: Run<'a, T>,
    pub stage: AttemptStage,
    pub attempt: SandboxAttempt<'a, T>,
}

/// Asks the tool to run.
pub struct AskAttempt<'a, T: ToolTypes> {
    pub run: Run<'a, T>,
    pub stage: AttemptStage,
    pub attempt: SandboxAttempt<'a, T>,
    pub network_approval: Option<ActiveNetworkApproval<T>>,
}

/// Asks for a network approval to end now.
pub struct AskFinishImmediate<'a, T: ToolTypes> {
    pub run: Run<'a, T>,
    pub stage: AttemptStage,
    pub run_result: Result<T::Out, ToolError<T>>,
}

/// Asks for a network approval to be turned into one that ends later.
pub struct AskIntoDeferred<'a, T: ToolTypes> {
    pub run: Run<'a, T>,
    pub stage: AttemptStage,
    pub run_result: Result<T::Out, ToolError<T>>,
}

/// Asks for a deferred network approval to end, as its attempt failed.
pub struct AskFinishDeferred<'a, T: ToolTypes> {
    pub run: Run<'a, T>,
    pub stage: AttemptStage,
    pub error: ToolError<T>,
}

/// Asks for the feedback inbox to be read again.
pub struct AskRefreshInbox<'a, T: ToolTypes> {
    pub denied: DeniedRun<'a, T>,
}

/// Asks the tool whether external feedback stops a second attempt.
pub struct AskRetryBlocked<'a, T: ToolTypes> {
    pub denied: DeniedRun<'a, T>,
}

/// Asks what a prompt about the denied network access would be about.
pub struct AskNetworkApprovalContext<'a, T: ToolTypes> {
    pub denied: DeniedRun<'a, T>,
}

/// Asks the tool whether it may be tried again without a sandbox at all.
pub struct AskEscalateOnFailure<'a, T: ToolTypes> {
    pub denied: DeniedRun<'a, T>,
    pub network_approval_context: Option<NetworkApprovalContext<T>>,
}

/// Asks the tool whether the approval policy lets it ask for an attempt without a sandbox.
pub struct AskWantsNoSandboxApproval<'a, T: ToolTypes> {
    pub denied: DeniedRun<'a, T>,
    pub network_approval_context: Option<NetworkApprovalContext<T>>,
}

/// Asks for the default requirement again, to see whether a network prompt is in order.
pub struct AskNetworkPromptRequirement<'a, T: ToolTypes> {
    pub denied: DeniedRun<'a, T>,
    pub network_approval_context: NetworkApprovalContext<T>,
}

/// Asks the tool whether the second attempt needs no approval of its own.
pub struct AskBypassApproval<'a, T: ToolTypes> {
    pub denied: DeniedRun<'a, T>,
    pub network_approval_context: Option<NetworkApprovalContext<T>>,
}

/// Where a run stands: the question that is open, with the value that it hands over if there is
/// one, or the end.
pub enum Step<'a, T: ToolTypes> {
    ExecApprovalRequirement(AskExecApprovalRequirement<'a, T>),
    DefaultRequirement(AskDefaultRequirement<'a, T>),
    GuardianReviewId(AskGuardianReviewId<'a, T>),
    PermissionRequestPayload(AskPermissionRequestPayload<'a, T>),
    PermissionRequestHooks(T::PermissionRequest, AskPermissionRequestHooks<'a, T>),
    Approval(AskApproval<'a, T>),
    GuardianRejectionMessage(AskGuardianRejectionMessage),
    GuardianTimeoutMessage(AskGuardianTimeoutMessage),
    SandboxOverride(AskSandboxOverride<'a, T>),
    InitialSandbox(AskInitialSandbox<'a, T>),
    BeginNetworkApproval(AskBeginNetworkApproval<'a, T>),
    Attempt(AskAttempt<'a, T>),
    FinishImmediate(T::NetworkApproval, AskFinishImmediate<'a, T>),
    IntoDeferred(T::NetworkApproval, AskIntoDeferred<'a, T>),
    FinishDeferred(Option<T::DeferredNetworkApproval>, AskFinishDeferred<'a, T>),
    RefreshInbox(AskRefreshInbox<'a, T>),
    RetryBlocked(AskRetryBlocked<'a, T>),
    NetworkApprovalContext(AskNetworkApprovalContext<'a, T>),
    EscalateOnFailure(AskEscalateOnFailure<'a, T>),
    WantsNoSandboxApproval(AskWantsNoSandboxApproval<'a, T>),
    NetworkPromptRequirement(AskNetworkPromptRequirement<'a, T>),
    BypassApproval(AskBypassApproval<'a, T>),
    Done(Result<OrchestratorRunResult<T>, ToolError<T>>),
}

/// What an answer leads to: a decision to record first, if any, and then the next step.
pub struct Progress<'a, T: ToolTypes> {
    pub record: Option<DecisionRecord<'a, T>>,
    pub next: Step<'a, T>,
}

/// The text of an optional string.
pub open spec fn text_of(text: Option<String>) -> Option<Seq<char>> {
    match text {
        Some(text) => Some(text@),
        None => None,
    }
}

impl<'a, T: ToolTypes> Step<'a, T> {
    /// The end of a run that the user turned down.
    pub open spec fn is_rejected_by_user(self) -> bool {
        &&& self matches Step::Done(Err(ToolError::Rejected(message)))
        &&& message@ == "rejected by user"@
    }
}

impl<'a, T: ToolTypes> Progress<'a, T> {
    /// There is nothing to record, and `next` follows.
    pub open spec fn goes_to(self, next: Step<'a, T>) -> bool {
        self == (Progress { record: None, next })
    }

    /// `record` is to be recorded, and `next` follows.
    pub open spec fn records(self, record: DecisionRecord<'a, T>, next: Step<'a, T>) -> bool {
        self == (Progress { record: Some(record), next })
    }
}

impl<'a, T: ToolTypes> Run<'a, T> {
    /// Whether the turn has a managed network.
    pub open spec fn spec_managed_network_active(&self) -> bool {
        self.turn.network is Some
    }

    #[verifier::when_used_as_spec(spec_managed_network_active)]
    pub fn managed_network_active(&self) -> (active: bool)
        ensures
            active == self.spec_managed_network_active(),
    {
        self.turn.network.is_some()
    }

    /// `decision` about the call of this run, as one of `source`.
    pub open spec fn record_of(
        self,
        decision: ReviewDecision<T>,
        source: ToolDecisionSource,
    ) -> DecisionRecord<'a, T> {
        DecisionRecord { tool_name: self.tool_name, call_id: self.call_id, decision, source }
    }

    pub(crate) fn new_record(
        &self,
        decision: ReviewDecision<T>,
        source: ToolDecisionSource,
    ) -> (record: DecisionRecord<'a, T>)
        ensures
            record == self.record_of(decision, source),
    {
        DecisionRecord { tool_name: self.tool_name, call_id: self.call_id, decision, source }
    }

    /// An attempt under the policies of the turn.
    pub open spec fn attempt_with(
        self,
        sandbox: SandboxType<T>,
        codex_linux_sandbox_exe: Option<&'a T::LinuxSandboxExe>,
    ) -> SandboxAttempt<'a, T> {
        SandboxAttempt {
            sandbox,
            policy: &self.turn.sandbox_policy,
            file_system_policy: &self.turn.file_system_sandbox_policy,
            network_policy: &self.turn.network_sandbox_policy,
            enforce_managed_network: self.managed_network_active(),
            manager: self.manager,
            sandbox_cwd: &self.turn.cwd,
            codex_linux_sandbox_exe,
            use_legacy_landlock: self.turn.use_legacy_landlock,
            windows_sandbox_level: &self.turn.windows_sandbox_level,
            windows_sandbox_private_desktop: self.turn.windows_sandbox_private_desktop,
        }
    }

    /// The first attempt: in `sandbox`, with the turn's helper program.
    pub open spec fn first_attempt(self, sandbox: SandboxType<T>) -> SandboxAttempt<'a, T> {
        let exe = match self.turn.codex_linux_sandbox_exe {
            Some(exe) => Some(&exe),
            None => None,
        };
        self.attempt_with(sandbox, exe)
    }

    /// The second attempt: without a sandbox, and so without a helper program.
    pub open spec fn escalated_attempt(self) -> SandboxAttempt<'a, T> {
        self.attempt_with(SandboxType::Unsandboxed, None)
    }

    fn new_attempt(
        &self,
        sandbox: SandboxType<T>,
        codex_linux_sandbox_exe: Option<&'a T::LinuxSandboxExe>,
    ) -> (attempt: SandboxAttempt<'a, T>)
        ensures
            attempt == self.attempt_with(sandbox, codex_linux_sandbox_exe),
    {
        SandboxAttempt {
            sandbox,
            policy: &self.turn.sandbox_policy,
            file_system_policy: &self.turn.file_system_sandbox_policy,
            network_policy: &self.turn.network_sandbox_policy,
            enforce_managed_network: self.managed_network_active(),
            manager: self.manager,
            sandbox_cwd: &self.turn.cwd,
            codex_linux_sandbox_exe,
            use_legacy_landlock: self.turn.use_legacy_landlock,
            windows_sandbox_level: &self.turn.windows_sandbox_level,
            windows_sandbox_private_desktop: self.turn.windows_sandbox_private_desktop,
        }
    }

    /// The step that begins the first attempt in `sandbox`.
    pub open spec fn first_attempt_step(
        self,
        already_approved: bool,
        sandbox: SandboxType<T>,
    ) -> Step<'a, T> {
        Step::BeginNetworkApproval(
            AskBeginNetworkApproval {
                run: self,
                stage: AttemptStage::First { already_approved },
                attempt: self.first_attempt(sandbox),
            },
        )
    }

    pub(crate) fn begin_first_attempt(self, already_approved: bool, sandbox: SandboxType<T>) -> (step: Step<
        'a,
        T,
    >)
        ensures
            step == self.first_attempt_step(already_approved, sandbox),
    {
        let attempt = self.new_attempt(sandbox, self.turn.codex_linux_sandbox_exe.as_ref());
        Step::BeginNetworkApproval(
            AskBeginNetworkApproval {
                run: self,
                stage: AttemptStage::First { already_approved },
                attempt,
            },
        )
    }

    /// The step that begins the second attempt.
    pub open spec fn escalated_attempt_step(self) -> Step<'a, T> {
        Step::BeginNetworkApproval(
            AskBeginNetworkApproval {
                run: self,
                stage: AttemptStage::Retry,
                attempt: self.escalated_attempt(),
            },
        )
    }

    pub(crate) fn begin_escalated_attempt(self) -> (step: Step<'a, T>)
        ensures
            step == self.escalated_attempt_step(),
    {
        let attempt = self.new_attempt(SandboxType::Unsandboxed, None);
        Step::BeginNetworkApproval(
            AskBeginNetworkApproval { run: self, stage: AttemptStage::Retry, attempt },
        )
    }
}

} // verus!
