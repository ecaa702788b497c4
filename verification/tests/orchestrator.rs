use codex_feedback::orchestrator::build_denial_reason_from_output;
use codex_feedback::orchestrator::ToolOrchestrator;
use codex_feedback::sandboxing::ActiveNetworkApproval;
use codex_feedback::sandboxing::AskForApproval;
use codex_feedback::sandboxing::ExecApprovalRequirement;
use codex_feedback::sandboxing::NetworkApprovalContext;
use codex_feedback::sandboxing::NetworkApprovalMode;
use codex_feedback::sandboxing::NetworkPolicyAmendment;
use codex_feedback::sandboxing::NetworkPolicyRuleAction;
use codex_feedback::sandboxing::PermissionRequestDecision;
use codex_feedback::sandboxing::ReviewDecision;
use codex_feedback::sandboxing::SandboxAttempt;
use codex_feedback::sandboxing::SandboxDenial;
use codex_feedback::sandboxing::SandboxOverride;
use codex_feedback::sandboxing::SandboxType;
use codex_feedback::sandboxing::ToolDecisionSource;
use codex_feedback::sandboxing::ToolError;
use codex_feedback::sandboxing::ToolTypes;
use codex_feedback::sandboxing::TurnContext;
use codex_feedback::step::OrchestratorRunResult;
use codex_feedback::step::Step;

struct Fake;

impl ToolTypes for Fake {
    type Out = String;
    type ExecOutput = String;
    type NetworkPolicyDecision = String;
    type CodexErr = String;
    type NetworkApproval = String;
    type DeferredNetworkApproval = String;
    type NetworkDetail = u16;
    type ExecPolicyAmendment = String;
    type NetworkAmendmentDetail = String;
    type PermissionRequest = String;
    type ApprovalPolicy = u8;
    type PlatformSandbox = &'static str;
    type SandboxManager = &'static str;
    type SandboxPolicy = &'static str;
    type FileSystemSandboxPolicy = &'static str;
    type NetworkSandboxPolicy = &'static str;
    type WindowsSandboxLevel = u8;
    type Dir = &'static str;
    type LinuxSandboxExe = &'static str;
    type ManagedNetwork = &'static str;
}

type Outcome = Result<OrchestratorRunResult<Fake>, ToolError<Fake>>;

/// The answers to one run, and a log of what was asked.
struct Host {
    tool_name: &'static str,
    call_id: &'static str,
    requirement: Option<ExecApprovalRequirement>,
    default_requirement: fn() -> ExecApprovalRequirement,
    use_guardian: bool,
    policy: AskForApproval<Fake>,
    managed_network: bool,
    hooks: bool,
    hook_decision: fn(usize) -> Option<PermissionRequestDecision>,
    approval: fn(usize) -> ReviewDecision<Fake>,
    sandbox_override: SandboxOverride,
    approval_mode: Option<NetworkApprovalMode>,
    results: Vec<Result<String, ToolError<Fake>>>,
    finalize: fn() -> Result<(), ToolError<Fake>>,
    blocked: Option<ToolError<Fake>>,
    context_host: Option<&'static str>,
    escalate: bool,
    wants_no_sandbox: bool,
    bypass: bool,
    log: Vec<String>,
}

fn host() -> Host {
    Host {
        tool_name: "shell",
        call_id: "call-1",
        requirement: None,
        default_requirement: || ExecApprovalRequirement::Skip,
        use_guardian: false,
        policy: AskForApproval::OnFailure,
        managed_network: false,
        hooks: false,
        hook_decision: |_| None,
        approval: |_| ReviewDecision::Approved,
        sandbox_override: SandboxOverride::NoOverride,
        approval_mode: None,
        results: vec![Err(denied(None)), Ok("second".to_string())],
        finalize: || Ok(()),
        blocked: None,
        context_host: None,
        escalate: true,
        wants_no_sandbox: true,
        bypass: true,
        log: Vec::new(),
    }
}

fn denied(network_policy_decision: Option<&str>) -> ToolError<Fake> {
    ToolError::SandboxDenied(SandboxDenial {
        output: "sandbox denied".to_string(),
        network_policy_decision: network_policy_decision.map(|decision| decision.to_string()),
    })
}

fn needs_approval() -> Option<ExecApprovalRequirement> {
    Some(ExecApprovalRequirement::NeedsApproval {
        reason: Some("writes outside the workspace".to_string()),
    })
}

fn decision_name(decision: &ReviewDecision<Fake>) -> &'static str {
    match decision {
        ReviewDecision::Approved => "approved",
        ReviewDecision::ApprovedExecpolicyAmendment { .. } => "approved_execpolicy_amendment",
        ReviewDecision::ApprovedForSession => "approved_for_session",
        ReviewDecision::NetworkPolicyAmendment { .. } => "network_policy_amendment",
        ReviewDecision::Denied => "denied",
        ReviewDecision::TimedOut => "timed_out",
        ReviewDecision::Abort => "abort",
    }
}

fn attempt_line(attempt: &SandboxAttempt<'_, Fake>) -> String {
    let sandbox = match &attempt.sandbox {
        SandboxType::Unsandboxed => "none",
        SandboxType::Platform(sandbox) => sandbox,
    };
    format!(
        "attempt {sandbox} {} {} {} {} {} {} {} {} {} {}",
        attempt.policy,
        attempt.file_system_policy,
        attempt.network_policy,
        attempt.enforce_managed_network,
        attempt.manager,
        attempt.sandbox_cwd,
        match attempt.codex_linux_sandbox_exe {
            Some(exe) => exe,
            None => "no-exe",
        },
        attempt.use_legacy_landlock,
        attempt.windows_sandbox_level,
        attempt.windows_sandbox_private_desktop,
    )
}

const FIRST: &str = "attempt seccomp policy fs net false manager cwd exe true 3 true";
const RETRY: &str = "attempt none policy fs net false manager cwd no-exe true 3 true";

impl Host {
    fn run(&mut self) -> Outcome {
        let orchestrator: ToolOrchestrator<Fake> = ToolOrchestrator::new("manager");
        let turn = TurnContext {
            sandbox_policy: "policy",
            file_system_sandbox_policy: "fs",
            network_sandbox_policy: "net",
            network: if self.managed_network {
                Some("proxy")
            } else {
                None
            },
            cwd: "cwd",
            codex_linux_sandbox_exe: Some("exe"),
            use_legacy_landlock: true,
            windows_sandbox_level: 3,
            windows_sandbox_private_desktop: true,
        };
        let policy = match self.policy {
            AskForApproval::OnRequest => AskForApproval::OnRequest,
            AskForApproval::OnFailure => AskForApproval::OnFailure,
            AskForApproval::Never => AskForApproval::Never,
            AskForApproval::Other(other) => AskForApproval::Other(other),
        };
        let mut progress = orchestrator.run(
            &turn,
            self.tool_name,
            self.call_id,
            &policy,
            self.use_guardian,
        );
        let mut review_ids: usize = 0;
        let mut hook_runs: usize = 0;
        let mut prompts: usize = 0;
        let mut network_approvals: usize = 0;
        loop {
            if let Some(record) = &progress.record {
                let source = match record.source {
                    ToolDecisionSource::Config => "config",
                    ToolDecisionSource::AutomatedReviewer => "guardian",
                    ToolDecisionSource::User => "user",
                };
                assert_eq!(record.tool_name, self.tool_name);
                assert_eq!(record.call_id, self.call_id);
                self.log
                    .push(format!("record {} {source}", decision_name(&record.decision)));
            }
            progress = match progress.next {
                Step::ExecApprovalRequirement(q) => q.answer(self.requirement.take()),
                Step::DefaultRequirement(q) => q.answer((self.default_requirement)()),
                Step::GuardianReviewId(q) => {
                    review_ids += 1;
                    q.answer(format!("review-{review_ids}"))
                }
                Step::PermissionRequestPayload(q) => {
                    let payload = if self.hooks {
                        Some("git status".to_string())
                    } else {
                        None
                    };
                    q.answer(payload)
                }
                Step::PermissionRequestHooks(request, q) => {
                    self.log.push(format!(
                        "hooks {} {request}",
                        q.permission_request_run_id()
                    ));
                    hook_runs += 1;
                    q.answer((self.hook_decision)(hook_runs))
                }
                Step::Approval(q) => {
                    let ctx = &q.approval_ctx;
                    self.log.push(format!(
                        "prompt {} | {} | {}",
                        ctx.guardian_review_id.as_deref().unwrap_or("-"),
                        ctx.retry_reason.as_deref().unwrap_or("-"),
                        match &ctx.network_approval_context {
                            Some(context) => format!("{}:{}", context.host, context.detail),
                            None => "-".to_string(),
                        }
                    ));
                    prompts += 1;
                    q.answer((self.approval)(prompts))
                }
                Step::GuardianRejectionMessage(q) => {
                    let message = format!("guardian said no in {}", q.review_id);
                    q.answer(message)
                }
                Step::GuardianTimeoutMessage(q) => q.answer("guardian took too long".to_string()),
                Step::SandboxOverride(q) => q.answer(self.sandbox_override),
                Step::InitialSandbox(q) => q.answer(SandboxType::Platform("seccomp")),
                Step::BeginNetworkApproval(q) => {
                    let approval = match self.approval_mode {
                        Some(mode) => {
                            self.log.push("begin network approval".to_string());
                            network_approvals += 1;
                            Some(ActiveNetworkApproval {
                                mode,
                                approval: format!("net-{network_approvals}"),
                            })
                        }
                        None => None,
                    };
                    q.answer(approval)
                }
                Step::Attempt(q) => {
                    self.log.push(attempt_line(&q.attempt));
                    let result = self.results.remove(0);
                    q.answer(result)
                }
                Step::FinishImmediate(approval, q) => {
                    self.log.push(format!("finish immediate {approval}"));
                    q.answer((self.finalize)())
                }
                Step::IntoDeferred(approval, q) => q.answer(Some(format!("deferred {approval}"))),
                Step::FinishDeferred(deferred, q) => {
                    self.log
                        .push(format!("finish {}", deferred.as_deref().unwrap_or("nothing")));
                    q.answer()
                }
                Step::RefreshInbox(q) => {
                    self.log.push("refresh".to_string());
                    q.answer()
                }
                Step::RetryBlocked(q) => q.answer(self.blocked.take()),
                Step::NetworkApprovalContext(q) => {
                    let context = self.context_host.map(|host| NetworkApprovalContext {
                        host: host.to_string(),
                        detail: 443,
                    });
                    q.answer(context)
                }
                Step::EscalateOnFailure(q) => q.answer(self.escalate),
                Step::WantsNoSandboxApproval(q) => q.answer(self.wants_no_sandbox),
                Step::NetworkPromptRequirement(q) => q.answer((self.default_requirement)()),
                Step::BypassApproval(q) => {
                    self.log
                        .push(format!("bypass? {}", q.denied.already_approved));
                    q.answer(self.bypass)
                }
                Step::Done(outcome) => return outcome,
            };
        }
    }

    fn attempts(&self) -> usize {
        self.log
            .iter()
            .filter(|line| line.starts_with("attempt "))
            .count()
    }
}

fn rejection(outcome: Outcome) -> String {
    match outcome {
        Err(ToolError::Rejected(message)) => message,
        Err(_) => panic!("expected a rejection, got another error"),
        Ok(_) => panic!("expected a rejection, got an output"),
    }
}

fn denial(outcome: Outcome) -> (String, Option<String>) {
    match outcome {
        Err(ToolError::SandboxDenied(denial)) => (denial.output, denial.network_policy_decision),
        Err(_) => panic!("expected a denial, got another error"),
        Ok(_) => panic!("expected a denial, got an output"),
    }
}

fn output(outcome: Outcome) -> (String, Option<String>) {
    match outcome {
        Ok(result) => (result.output, result.deferred_network_approval),
        Err(_) => panic!("expected an output"),
    }
}

#[test]
fn orchestrator_skips_retry_when_external_feedback_blocks_command() {
    let mut host = host();
    host.blocked = Some(ToolError::Rejected(
        "Command execution was blocked by SecuritySoftware: endpoint protection denied execution\nCommand: git status\nDo not retry this command until the external condition is cleared.".to_string(),
    ));
    let message = rejection(host.run());
    assert!(message.contains("Do not retry this command"));
    assert_eq!(host.attempts(), 1);
    assert_eq!(
        host.log,
        vec!["record approved config", FIRST, "refresh"]
    );
}

#[test]
fn orchestrator_skips_retry_when_external_feedback_blocks_path() {
    let mut host = host();
    host.tool_name = "apply_patch";
    host.call_id = "call-path";
    host.blocked = Some(ToolError::Rejected(
        "Patch application was blocked by OperatingSystem: file is locked by another process\nPaths: README.md\nDo not retry this patch until the external condition is cleared.".to_string(),
    ));
    let message = rejection(host.run());
    assert!(message.contains("Do not retry this patch"));
    assert_eq!(host.attempts(), 1);
    assert_eq!(
        host.log,
        vec!["record approved config", FIRST, "refresh"]
    );
}

#[test]
fn denied_call_is_retried_without_a_sandbox() {
    let mut host = host();
    assert_eq!(output(host.run()), ("second".to_string(), None));
    assert_eq!(
        host.log,
        vec![
            "record approved config",
            FIRST,
            "refresh",
            "bypass? false",
            RETRY
        ]
    );
}

#[test]
fn successful_call_is_attempted_once() {
    let mut host = host();
    host.results = vec![Ok("first".to_string())];
    assert_eq!(output(host.run()), ("first".to_string(), None));
    assert_eq!(host.log, vec!["record approved config", FIRST]);
}

#[test]
fn failure_that_is_no_denial_is_not_retried() {
    let mut host = host();
    host.results = vec![Err(ToolError::Codex("out of memory".to_string()))];
    assert!(matches!(
        host.run(),
        Err(ToolError::Codex(error)) if error == "out of memory"
    ));
    assert_eq!(host.attempts(), 1);
}

#[test]
fn second_denial_ends_the_run() {
    let mut host = host();
    host.results = vec![Err(denied(None)), Err(denied(Some("again")))];
    assert_eq!(
        denial(host.run()),
        ("sandbox denied".to_string(), Some("again".to_string()))
    );
    assert_eq!(host.attempts(), 2);
}

#[test]
fn first_attempt_can_leave_the_sandbox_out() {
    let mut host = host();
    host.sandbox_override = SandboxOverride::BypassSandboxFirstAttempt;
    host.results = vec![Ok("first".to_string())];
    assert_eq!(output(host.run()).0, "first");
    assert_eq!(
        host.log[1],
        "attempt none policy fs net false manager cwd exe true 3 true"
    );
}

#[test]
fn forbidden_call_is_not_attempted() {
    let mut host = host();
    host.requirement = Some(ExecApprovalRequirement::Forbidden {
        reason: "rm is not allowed".to_string(),
    });
    assert_eq!(rejection(host.run()), "rm is not allowed");
    assert!(host.log.is_empty());
}

#[test]
fn tool_requirement_comes_before_the_default() {
    let mut host = host();
    host.requirement = Some(ExecApprovalRequirement::Skip);
    host.default_requirement = || ExecApprovalRequirement::Forbidden {
        reason: "default".to_string(),
    };
    host.results = vec![Ok("first".to_string())];
    assert_eq!(output(host.run()).0, "first");
}

#[test]
fn approved_call_is_attempted() {
    let mut host = host();
    host.requirement = needs_approval();
    host.results = vec![Ok("first".to_string())];
    assert_eq!(output(host.run()).0, "first");
    assert_eq!(
        host.log,
        vec![
            "prompt - | writes outside the workspace | -",
            "record approved user",
            FIRST
        ]
    );
}

#[test]
fn every_permitting_decision_lets_the_call_run() {
    let decisions: [fn(usize) -> ReviewDecision<Fake>; 4] = [
        |_| ReviewDecision::Approved,
        |_| ReviewDecision::ApprovedForSession,
        |_| ReviewDecision::ApprovedExecpolicyAmendment {
            proposed_execpolicy_amendment: "git".to_string(),
        },
        |_| ReviewDecision::NetworkPolicyAmendment {
            network_policy_amendment: NetworkPolicyAmendment {
                action: NetworkPolicyRuleAction::Allow,
                detail: "example.com".to_string(),
            },
        },
    ];
    for approval in decisions {
        let mut host = host();
        host.requirement = needs_approval();
        host.approval = approval;
        host.results = vec![Ok("first".to_string())];
        assert_eq!(output(host.run()).0, "first");
    }
}

#[test]
fn user_refusals_are_rejections_by_the_user() {
    let decisions: [fn(usize) -> ReviewDecision<Fake>; 3] = [
        |_| ReviewDecision::Denied,
        |_| ReviewDecision::Abort,
        |_| ReviewDecision::NetworkPolicyAmendment {
            network_policy_amendment: NetworkPolicyAmendment {
                action: NetworkPolicyRuleAction::Deny,
                detail: "example.com".to_string(),
            },
        },
    ];
    for approval in decisions {
        let mut host = host();
        host.requirement = needs_approval();
        host.approval = approval;
        assert_eq!(rejection(host.run()), "rejected by user");
        assert_eq!(host.attempts(), 0);
    }
}

#[test]
fn guardian_refusals_are_in_its_own_words() {
    let mut denied_host = host();
    denied_host.use_guardian = true;
    denied_host.requirement = needs_approval();
    denied_host.approval = |_| ReviewDecision::Denied;
    assert_eq!(rejection(denied_host.run()), "guardian said no in review-1");
    assert_eq!(
        denied_host.log,
        vec![
            "prompt review-1 | writes outside the workspace | -",
            "record denied guardian"
        ]
    );

    let mut amended_host = host();
    amended_host.use_guardian = true;
    amended_host.requirement = needs_approval();
    amended_host.approval = |_| ReviewDecision::NetworkPolicyAmendment {
        network_policy_amendment: NetworkPolicyAmendment {
            action: NetworkPolicyRuleAction::Deny,
            detail: "example.com".to_string(),
        },
    };
    assert_eq!(rejection(amended_host.run()), "rejected by user");
}

#[test]
fn review_that_times_out_is_a_rejection() {
    let mut host = host();
    host.requirement = needs_approval();
    host.approval = |_| ReviewDecision::TimedOut;
    assert_eq!(rejection(host.run()), "guardian took too long");
    assert_eq!(host.attempts(), 0);
}

#[test]
fn hook_that_allows_saves_the_prompt() {
    let mut host = host();
    host.requirement = needs_approval();
    host.hooks = true;
    host.hook_decision = |_| Some(PermissionRequestDecision::Allow);
    host.results = vec![Ok("first".to_string())];
    assert_eq!(output(host.run()).0, "first");
    assert_eq!(
        host.log,
        vec![
            "hooks call-1 git status",
            "record approved config",
            FIRST
        ]
    );
}

#[test]
fn hook_that_denies_gives_the_reason() {
    let mut host = host();
    host.use_guardian = true;
    host.requirement = needs_approval();
    host.hooks = true;
    host.hook_decision = |_| {
        Some(PermissionRequestDecision::Deny {
            message: "not on this branch".to_string(),
        })
    };
    assert_eq!(rejection(host.run()), "not on this branch");
    assert_eq!(
        host.log,
        vec!["hooks call-1 git status", "record denied config"]
    );
}

#[test]
fn hooks_without_a_decision_leave_it_to_the_prompt() {
    let mut host = host();
    host.requirement = needs_approval();
    host.hooks = true;
    host.bypass = false;
    assert_eq!(output(host.run()).0, "second");
    assert_eq!(
        host.log,
        vec![
            "hooks call-1 git status",
            "prompt - | writes outside the workspace | -",
            "record approved user",
            FIRST,
            "refresh",
            "bypass? true",
            "hooks call-1:retry git status",
            "prompt - | command failed; retry without sandbox? | -",
            "record approved user",
            RETRY
        ]
    );
}

#[test]
fn retry_that_is_refused_is_not_made() {
    let mut host = host();
    host.bypass = false;
    host.approval = |_| ReviewDecision::Denied;
    assert_eq!(rejection(host.run()), "rejected by user");
    assert_eq!(host.attempts(), 1);
}

#[test]
fn tool_that_does_not_escalate_surfaces_the_denial() {
    let mut host = host();
    host.escalate = false;
    assert_eq!(denial(host.run()), ("sandbox denied".to_string(), None));
    assert_eq!(host.attempts(), 1);
}

#[test]
fn policy_against_unsandboxed_attempts_surfaces_the_denial() {
    for policy in [
        AskForApproval::Never,
        AskForApproval::OnRequest,
        AskForApproval::Other(1),
    ] {
        let mut host = host();
        host.policy = policy;
        host.wants_no_sandbox = false;
        host.default_requirement = || ExecApprovalRequirement::Skip;
        assert_eq!(denial(host.run()), ("sandbox denied".to_string(), None));
        assert_eq!(host.attempts(), 1);
    }
}

#[test]
fn network_denial_without_a_context_is_surfaced() {
    for managed_network in [false, true] {
        let mut host = host();
        host.managed_network = managed_network;
        host.results = vec![Err(denied(Some("blocked"))), Ok("second".to_string())];
        assert_eq!(
            denial(host.run()),
            ("sandbox denied".to_string(), Some("blocked".to_string()))
        );
        assert_eq!(host.attempts(), 1);
    }
}

#[test]
fn context_is_not_looked_for_without_a_managed_network() {
    let mut host = host();
    host.context_host = Some("example.com");
    host.results = vec![Err(denied(Some("blocked"))), Ok("second".to_string())];
    assert_eq!(denial(host.run()).1, Some("blocked".to_string()));
}

#[test]
fn network_denial_is_always_prompted_for() {
    let mut host = host();
    host.managed_network = true;
    host.context_host = Some("example.com");
    host.results = vec![Err(denied(Some("ask"))), Ok("second".to_string())];
    assert_eq!(output(host.run()).0, "second");
    assert_eq!(
        host.log,
        vec![
            "record approved config",
            "attempt seccomp policy fs net true manager cwd exe true 3 true",
            "refresh",
            "bypass? false",
            "prompt - | Network access to \"example.com\" is blocked by policy. | example.com:443",
            "record approved user",
            "attempt none policy fs net true manager cwd no-exe true 3 true"
        ]
    );
}

#[test]
fn network_prompt_under_on_request_depends_on_the_default() {
    let mut asking = host();
    asking.policy = AskForApproval::OnRequest;
    asking.requirement = Some(ExecApprovalRequirement::Skip);
    asking.default_requirement = || ExecApprovalRequirement::NeedsApproval { reason: None };
    asking.wants_no_sandbox = false;
    asking.managed_network = true;
    asking.context_host = Some("example.com");
    asking.results = vec![Err(denied(Some("ask"))), Ok("second".to_string())];
    assert_eq!(output(asking.run()).0, "second");

    let mut skipping = host();
    skipping.policy = AskForApproval::OnRequest;
    skipping.wants_no_sandbox = false;
    skipping.managed_network = true;
    skipping.context_host = Some("example.com");
    skipping.results = vec![Err(denied(Some("ask"))), Ok("second".to_string())];
    assert_eq!(
        denial(skipping.run()),
        ("sandbox denied".to_string(), Some("ask".to_string()))
    );

    let mut never = host();
    never.policy = AskForApproval::Never;
    never.requirement = Some(ExecApprovalRequirement::Skip);
    never.default_requirement = || ExecApprovalRequirement::NeedsApproval { reason: None };
    never.wants_no_sandbox = false;
    never.managed_network = true;
    never.context_host = Some("example.com");
    never.results = vec![Err(denied(Some("ask"))), Ok("second".to_string())];
    assert_eq!(denial(never.run()).1, Some("ask".to_string()));
}

#[test]
fn immediate_network_approval_is_finished_after_the_attempt() {
    let mut host = host();
    host.approval_mode = Some(NetworkApprovalMode::Immediate);
    host.results = vec![Ok("first".to_string())];
    assert_eq!(output(host.run()), ("first".to_string(), None));
    assert_eq!(
        host.log,
        vec![
            "record approved config",
            "begin network approval",
            FIRST,
            "finish immediate net-1"
        ]
    );
}

#[test]
fn failure_to_finish_replaces_the_output() {
    let mut host = host();
    host.approval_mode = Some(NetworkApprovalMode::Immediate);
    host.finalize = || Err(ToolError::Rejected("network access was denied".to_string()));
    host.results = vec![Ok("first".to_string())];
    assert_eq!(rejection(host.run()), "network access was denied");
}

#[test]
fn deferred_network_approval_goes_to_the_caller() {
    let mut host = host();
    host.approval_mode = Some(NetworkApprovalMode::Deferred);
    host.results = vec![Ok("first".to_string())];
    assert_eq!(
        output(host.run()),
        ("first".to_string(), Some("deferred net-1".to_string()))
    );
}

#[test]
fn deferred_network_approval_of_a_failed_attempt_is_finished() {
    let mut host = host();
    host.approval_mode = Some(NetworkApprovalMode::Deferred);
    assert_eq!(
        output(host.run()),
        ("second".to_string(), Some("deferred net-2".to_string()))
    );
    assert_eq!(
        host.log,
        vec![
            "record approved config",
            "begin network approval",
            FIRST,
            "finish deferred net-1",
            "refresh",
            "bypass? false",
            "begin network approval",
            RETRY
        ]
    );
}

#[test]
fn failure_of_the_second_attempt_is_the_result() {
    for mode in [
        None,
        Some(NetworkApprovalMode::Immediate),
        Some(NetworkApprovalMode::Deferred),
    ] {
        let mut host = host();
        host.approval_mode = mode;
        host.results = vec![
            Err(denied(None)),
            Err(ToolError::Codex("out of memory".to_string())),
        ];
        assert!(matches!(
            host.run(),
            Err(ToolError::Codex(error)) if error == "out of memory"
        ));
        assert_eq!(host.attempts(), 2);
    }
}

#[test]
fn failure_to_finish_replaces_the_failure_of_an_attempt() {
    let mut host = host();
    host.approval_mode = Some(NetworkApprovalMode::Immediate);
    host.finalize = || Err(ToolError::Rejected("network access was denied".to_string()));
    assert_eq!(rejection(host.run()), "network access was denied");
    assert_eq!(host.attempts(), 1);
}

#[test]
fn denial_reason_is_the_same_for_every_output() {
    let reason = "command failed; retry without sandbox?";
    assert_eq!(build_denial_reason_from_output(&"permission denied"), reason);
    assert_eq!(build_denial_reason_from_output(&""), reason);
}
