//! The values that a tool call is decided on: policies, approvals, errors and sandbox attempts.

use vstd::prelude::*;

verus! {

/// The types of the values that a run carries from one place to another and never looks into.
pub trait ToolTypes {
    /// What a tool gives back when it succeeds.
    type Out;

    /// The captured output of a tool call that the sandbox denied.
    type ExecOutput;

    /// What the network policy decided about a denied call.
    type NetworkPolicyDecision;

    /// Any failure of a tool that is neither a rejection nor a sandbox denial.
    type CodexErr;

    /// A network approval that has begun.
    type NetworkApproval;

    /// A network approval whose end is left to the caller of the run.
    type DeferredNetworkApproval;

    /// What a network approval context holds besides the host.
    type NetworkDetail;

    /// A change to the command policy that came with an approval.
    type ExecPolicyAmendment;

    /// What a change to the network policy holds besides its action.
    type NetworkAmendmentDetail;

    /// What the permission request hooks are asked.
    type PermissionRequest;

    /// An approval policy other than the three that have a name here.
    type ApprovalPolicy;

    /// A sandbox of some platform.
    type PlatformSandbox;

    /// What selects and sets up sandboxes.
    type SandboxManager;

    /// The sandbox policy of a turn.
    type SandboxPolicy;

    /// The file system part of it.
    type FileSystemSandboxPolicy;

    /// The network part of it.
    type NetworkSandboxPolicy;

    /// How strict the sandbox is on Windows.
    type WindowsSandboxLevel;

    /// A directory.
    type Dir;

    /// The helper program of the sandbox on Linux.
    type LinuxSandboxExe;

    /// The managed network of a turn.
    type ManagedNetwork;
}

/// When a user wants to be asked.
pub enum AskForApproval<T: ToolTypes> {
    OnRequest,
    OnFailure,
    Never,
    Other(T::ApprovalPolicy),
}

/// What has to happen before a tool call may run.
pub enum ExecApprovalRequirement {
    Skip,
    NeedsApproval { reason: Option<String> },
    Forbidden { reason: String },
}

/// Whether the first attempt leaves the sandbox out.
#[derive(Clone, Copy, Debug, PartialEq, Eq, Structural)]
pub enum SandboxOverride {
    NoOverride,
    BypassSandboxFirstAttempt,
}

/// The sandbox of an attempt.
pub enum SandboxType<T: ToolTypes> {
    Unsandboxed,
    Platform(T::PlatformSandbox),
}

/// What a reviewed change to the network policy does.
#[derive(Clone, Copy, Debug, PartialEq, Eq, Structural)]
pub enum NetworkPolicyRuleAction {
    Allow,
    Deny,
}

/// A change to the network policy that came as the answer to an approval prompt.
pub struct NetworkPolicyAmendment<T: ToolTypes> {
    pub action: NetworkPolicyRuleAction,
    pub detail: T::NetworkAmendmentDetail,
}

/// The answer to an approval prompt.
pub enum ReviewDecision<T: ToolTypes> {
    Approved,
    ApprovedExecpolicyAmendment { proposed_execpolicy_amendment: T::ExecPolicyAmendment },
    ApprovedForSession,
    NetworkPolicyAmendment { network_policy_amendment: NetworkPolicyAmendment<T> },
    Denied,
    TimedOut,
    Abort,
}

impl<T: ToolTypes> ReviewDecision<T> {
    /// Whether the call may go on after this answer.
    pub open spec fn permits(self) -> bool {
        match self {
            ReviewDecision::Approved => true,
            ReviewDecision::ApprovedExecpolicyAmendment { .. } => true,
            ReviewDecision::ApprovedForSession => true,
            ReviewDecision::NetworkPolicyAmendment { network_policy_amendment } =>
                network_policy_amendment.action == NetworkPolicyRuleAction::Allow,
            ReviewDecision::Denied => false,
            ReviewDecision::TimedOut => false,
            ReviewDecision::Abort => false,
        }
    }
}

/// Who gave the answer to an approval prompt.
#[derive(Clone, Copy, Debug, PartialEq, Eq, Structural)]
pub enum ToolDecisionSource {
    Config,
    AutomatedReviewer,
    User,
}

/// A decision about a tool call, as telemetry keeps it.
pub struct DecisionRecord<'a, T: ToolTypes> {
    pub tool_name: &'a str,
    pub call_id: &'a str,
    pub decision: ReviewDecision<T>,
    pub source: ToolDecisionSource,
}

/// What a permission request hook decides.
pub enum PermissionRequestDecision {
    Allow,
    Deny { message: String },
}

/// The network access that a prompt is about.
pub struct NetworkApprovalContext<T: ToolTypes> {
    pub host: String,
    pub detail: T::NetworkDetail,
}

/// What an approval prompt is given besides the call itself.
pub struct ApprovalCtx<T: ToolTypes> {
    pub guardian_review_id: Option<String>,
    pub retry_reason: Option<String>,
    pub network_approval_context: Option<NetworkApprovalContext<T>>,
}

/// When a network approval ends.
#[derive(Clone, Copy, Debug, PartialEq, Eq, Structural)]
pub enum NetworkApprovalMode {
    Immediate,
    Deferred,
}

/// A network approval that has begun, with the way it is to end.
pub struct ActiveNetworkApproval<T: ToolTypes> {
    pub mode: NetworkApprovalMode,
    pub approval: T::NetworkApproval,
}

/// A sandbox denial.
pub struct SandboxDenial<T: ToolTypes> {
    pub output: T::ExecOutput,
    pub network_policy_decision: Option<T::NetworkPolicyDecision>,
}

/// Why a tool call failed.
pub enum ToolError<T: ToolTypes> {
    Rejected(String),
    SandboxDenied(SandboxDenial<T>),
    Codex(T::CodexErr),
}

/// What a turn says about the sandboxes of its tool calls.
pub struct TurnContext<T: ToolTypes> {
    pub sandbox_policy: T::SandboxPolicy,
    pub file_system_sandbox_policy: T::FileSystemSandboxPolicy,
    pub network_sandbox_policy: T::NetworkSandboxPolicy,
    pub network: Option<T::ManagedNetwork>,
    pub cwd: T::Dir,
    pub codex_linux_sandbox_exe: Option<T::LinuxSandboxExe>,
    pub use_legacy_landlock: bool,
    pub windows_sandbox_level: T::WindowsSandboxLevel,
    pub windows_sandbox_private_desktop: bool,
}

/// How one attempt of a tool call is run.
pub struct SandboxAttempt<'a, T: ToolTypes> {
    pub sandbox: SandboxType<T>,
    pub policy: &'a T::SandboxPolicy,
    pub file_system_policy: &'a T::FileSystemSandboxPolicy,
    pub network_policy: &'a T::NetworkSandboxPolicy,
    pub enforce_managed_network: bool,
    pub manager: &'a T::SandboxManager,
    pub sandbox_cwd: &'a T::Dir,
    pub codex_linux_sandbox_exe: Option<&'a T::LinuxSandboxExe>,
    pub use_legacy_landlock: bool,
    pub windows_sandbox_level: &'a T::WindowsSandboxLevel,
    pub windows_sandbox_private_desktop: bool,
}

} // verus!
