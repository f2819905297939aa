use aether_agent::runtime::action::{
    Action, ActionRisk, ActionVariant, ApplicationLaunchParams, CredentialSealParams, CredentialUnsealParams,
    DeviceDisableParams, DeviceEnableParams, DisplaySetBrightnessParams, FileDeleteParams, FileReadParams,
    FileWriteParams, SystemRebootParams, SystemShutdownParams,
};
use aether_agent::runtime::approval::{ApprovalDecision, ApprovalRequest, ApprovalRequestId, ApprovalStatus};
use aether_agent::runtime::errors::AgentError;
use aether_agent::runtime::executor::ActionExecutor;
use aether_agent::runtime::intent::IntentType;
use aether_agent::runtime::llm::{EchoLlmProvider, MockLlmProvider};
use aether_agent::runtime::llm_provider::{authority_of, choose_provider, ProviderChoice, DEFAULT_OLLAMA_MODEL};
use aether_agent::runtime::recovery::{
    backoff_delay, decide_recovery, FailureKind, RecoveryAction, RecoveryPolicy,
};
use aether_agent::runtime::session::{ActorType, AgentSession, SessionActor, SessionId, SessionState};
use aether_agent::runtime::structured_intent::{
    build_intent_prompt, parse_intent, IntentEnvelope, StructuredIntentError,
};
use aether_agent::runtime::tool::{default_tools, ToolDefinition, ToolId, ToolRegistry, ToolRisk};
use aether_agent::runtime::validator::Validator;
use std::time::Duration;

fn empty_object() -> serde_json::Value {
    serde_json::Value::Object(serde_json::Map::new())
}

fn object_with(key: &str, value: serde_json::Value) -> serde_json::Value {
    let mut m = serde_json::Map::new();
    m.insert(key.to_string(), value);
    serde_json::Value::Object(m)
}

fn text(s: &str) -> serde_json::Value {
    serde_json::Value::String(s.to_string())
}



#[test]
fn recovery_action_display() {
    assert_eq!(RecoveryAction::Retry.as_str(), "retry");
    assert_eq!(RecoveryAction::Abort.as_str(), "abort");
    assert_eq!(RecoveryAction::Skip.as_str(), "skip");
}

#[test]
fn default_policy_does_not_retry() {
    let p = RecoveryPolicy::default();
    assert_eq!(p.max_retries, 0);
    // No-retries => any backoff is moot, but the function is
    // still well-defined.
    assert_eq!(backoff_delay(&p, 1), Duration::from_millis(p.backoff_base_ms));
}

#[test]
fn backoff_doubles_and_caps() {
    let p = RecoveryPolicy {
        max_retries: 5,
        backoff_base_ms: 10,
        backoff_max_ms: 100,
        timeout_ms: None,
    };
    assert_eq!(backoff_delay(&p, 0), Duration::ZERO);
    assert_eq!(backoff_delay(&p, 1), Duration::from_millis(10));
    assert_eq!(backoff_delay(&p, 2), Duration::from_millis(20));
    assert_eq!(backoff_delay(&p, 3), Duration::from_millis(40));
    assert_eq!(backoff_delay(&p, 4), Duration::from_millis(80));
    assert_eq!(backoff_delay(&p, 5), Duration::from_millis(100));
    assert_eq!(backoff_delay(&p, 6), Duration::from_millis(100));
}

#[test]
fn backoff_handles_large_attempt_without_overflow() {
    let p = RecoveryPolicy {
        max_retries: 1000,
        backoff_base_ms: 1_000_000,
        backoff_max_ms: 10_000,
        timeout_ms: None,
    };
    // attempt 100 — would have overflowed if we had not capped the shift.
    let d = backoff_delay(&p, 100);
    assert_eq!(d, Duration::from_millis(10_000));
}

#[test]
fn transient_failure_retries_until_limit() {
    let p = RecoveryPolicy {
        max_retries: 3,
        backoff_base_ms: 1,
        backoff_max_ms: 1,
        timeout_ms: None,
    };
    assert_eq!(
        decide_recovery(&p, 1, FailureKind::Transient, false),
        RecoveryAction::Retry
    );
    assert_eq!(
        decide_recovery(&p, 3, FailureKind::Transient, false),
        RecoveryAction::Retry
    );
    // attempt > max_retries => Abort
    assert_eq!(
        decide_recovery(&p, 4, FailureKind::Transient, false),
        RecoveryAction::Abort
    );
}

#[test]
fn permanent_failure_aborts_immediately() {
    let p = RecoveryPolicy {
        max_retries: 5,
        backoff_base_ms: 1,
        backoff_max_ms: 1,
        timeout_ms: None,
    };
    assert_eq!(
        decide_recovery(&p, 1, FailureKind::Permanent, false),
        RecoveryAction::Abort
    );
}

#[test]
fn permanent_failure_skips_optional_step() {
    let p = RecoveryPolicy {
        max_retries: 5,
        backoff_base_ms: 1,
        backoff_max_ms: 1,
        timeout_ms: None,
    };
    assert_eq!(
        decide_recovery(&p, 1, FailureKind::Permanent, true),
        RecoveryAction::Skip
    );
}

#[test]
fn unknown_failure_retries_once_then_aborts() {
    let p = RecoveryPolicy {
        max_retries: 3,
        backoff_base_ms: 1,
        backoff_max_ms: 1,
        timeout_ms: None,
    };
    // First unknown: retry (conservatively).
    assert_eq!(
        decide_recovery(&p, 1, FailureKind::Unknown, false),
        RecoveryAction::Retry
    );
    // Second unknown: we already tried once, no more guessing.
    assert_eq!(
        decide_recovery(&p, 2, FailureKind::Unknown, false),
        RecoveryAction::Abort
    );
}

#[test]
fn optional_step_skips_when_retries_exhausted() {
    let p = RecoveryPolicy {
        max_retries: 2,
        backoff_base_ms: 1,
        backoff_max_ms: 1,
        timeout_ms: None,
    };
    assert_eq!(
        decide_recovery(&p, 3, FailureKind::Transient, true),
        RecoveryAction::Skip
    );
}

#[test]
fn zero_retry_policy_aborts_on_first_failure() {
    let p = RecoveryPolicy::no_retry();
    assert_eq!(
        decide_recovery(&p, 1, FailureKind::Transient, false),
        RecoveryAction::Abort
    );
    // Optional + no-retry + permanent => still skip.
    assert_eq!(
        decide_recovery(&p, 1, FailureKind::Permanent, true),
        RecoveryAction::Skip
    );
}

#[test]
fn transient_default_policy_is_three_retries() {
    let p = RecoveryPolicy::transient_default();
    assert_eq!(p.max_retries, 3);
    assert_eq!(p.backoff_base_ms, 100);
    assert_eq!(p.backoff_max_ms, 5_000);
    assert_eq!(p.timeout_ms, Some(2_000));
}

#[test]
fn failure_kind_classifies_ipc_and_timeout_as_transient() {
    let e = AgentError::Ipc("connection refused".to_string());
    assert_eq!(FailureKind::from_error(&e), FailureKind::Transient);
    let e = AgentError::Timeout("2s".to_string());
    assert_eq!(FailureKind::from_error(&e), FailureKind::Transient);
}

#[test]
fn failure_kind_classifies_denied_as_permanent() {
    let e = AgentError::CapabilityDenied("missing".to_string());
    assert_eq!(FailureKind::from_error(&e), FailureKind::Permanent);
    let e = AgentError::PolicyDenied("denied".to_string());
    assert_eq!(FailureKind::from_error(&e), FailureKind::Permanent);
    let e = AgentError::ApprovalRequired("needed".to_string());
    assert_eq!(FailureKind::from_error(&e), FailureKind::Permanent);
    let e = AgentError::Validation("bad input".to_string());
    assert_eq!(FailureKind::from_error(&e), FailureKind::Permanent);
    let e = AgentError::NotFound("file".to_string());
    assert_eq!(FailureKind::from_error(&e), FailureKind::Permanent);
}

#[test]
fn failure_kind_default_is_unknown() {
    let e = AgentError::Internal("oops".to_string());
    assert_eq!(FailureKind::from_error(&e), FailureKind::Unknown);
}




#[test]
fn executor_creation() {
    let exec = ActionExecutor::new(4747, 4750);
    assert_eq!(exec.control_port(), 4747);
    assert_eq!(exec.surface_port(), 4750);
}

#[test]
fn system_status_action_structure() {
    let a = Action::new("s1", ActionVariant::SystemStatus, "check");
    assert_eq!(a.action_name(), "system.status");
    assert!(a.requested_capabilities.contains(&"system.status".to_string()));
}



#[test]
fn action_creation_classifies_risk() {
    let a = Action::new(
        "s1",
        ActionVariant::ApplicationLaunch(ApplicationLaunchParams {
            application_id: "calc".to_string(),
        }),
        "user asked",
    );
    assert_eq!(a.risk_level, ActionRisk::Medium);
    assert!(a.requested_capabilities.contains(&"application.launch".to_string()));
}

#[test]
fn file_delete_is_high_risk() {
    let a = Action::new(
        "s1",
        ActionVariant::FileDelete(FileDeleteParams { path: "/tmp/test".to_string() }),
        "cleanup",
    );
    assert_eq!(a.risk_level, ActionRisk::High);
}

#[test]
fn read_actions_are_low_risk() {
    let a = Action::new(
        "s1",
        ActionVariant::FileRead(FileReadParams { path: "/tmp/test".to_string() }),
        "read file",
    );
    assert_eq!(a.risk_level, ActionRisk::Low);
}

#[test]
fn action_name_matches_variant() {
    let a = Action::new("s1", ActionVariant::SystemStatus, "check");
    assert_eq!(a.action_name(), "system.status");
}

#[test]
fn action_with_timeout() {
    let a = Action::new("s1", ActionVariant::SystemStatus, "check").with_timeout(5000);
    assert_eq!(a.timeout_ms, 5000);
}

#[test]
fn action_with_risk_level_override() {
    let a = Action::new("s1", ActionVariant::SystemStatus, "check")
        .with_risk_level(ActionRisk::Critical);
    assert_eq!(a.risk_level, ActionRisk::Critical);
}

#[test]
fn no_shell_command_actions_exist() {
    // Verify the ActionVariant enum has no Shell/Command variants
    let variants = std::mem::size_of::<ActionVariant>();
    assert!(variants > 0);
}

#[test]
fn display_actions_classify() {
    let list = Action::new("s1", ActionVariant::DisplayList, "list");
    assert_eq!(list.risk_level, ActionRisk::Low);
    assert_eq!(list.action_name(), "display.list");

    let bright = Action::new(
        "s1",
        ActionVariant::DisplaySetBrightness(DisplaySetBrightnessParams {
            display_id: "d-1".to_string(),
            level: 50,
        }),
        "dim",
    );
    assert_eq!(bright.risk_level, ActionRisk::Low);
    assert_eq!(bright.action_name(), "display.set_brightness");
}

#[test]
fn device_enable_disable_classify() {
    let on = Action::new(
        "s1",
        ActionVariant::DeviceEnable(DeviceEnableParams {
            device_id: "wifi-1".to_string(),
        }),
        "enable wifi",
    );
    assert_eq!(on.risk_level, ActionRisk::Medium);
    assert!(on.requested_capabilities.contains(&"device.enable".to_string()));

    let off = Action::new(
        "s1",
        ActionVariant::DeviceDisable(DeviceDisableParams {
            device_id: "cam-1".to_string(),
        }),
        "disable camera",
    );
    assert_eq!(off.risk_level, ActionRisk::Medium);
}

#[test]
fn power_actions_are_critical() {
    let reboot = Action::new(
        "s1",
        ActionVariant::SystemReboot(SystemRebootParams { delay_ms: 0 }),
        "reboot",
    );
    assert_eq!(reboot.risk_level, ActionRisk::Critical);
    assert_eq!(reboot.action_name(), "system.reboot");

    let shutdown = Action::new(
        "s1",
        ActionVariant::SystemShutdown(SystemShutdownParams { delay_ms: 5_000 }),
        "shutdown",
    );
    assert_eq!(shutdown.risk_level, ActionRisk::Critical);

    let suspend = Action::new("s1", ActionVariant::SystemSuspend, "suspend");
    assert_eq!(suspend.risk_level, ActionRisk::High);
}

#[test]
fn security_actions_classify() {
    let seal = Action::new(
        "s1",
        ActionVariant::CredentialSeal(CredentialSealParams {
            name: "api-key".to_string(),
            plaintext: "redacted".to_string(),
        }),
        "seal key",
    );
    assert_eq!(seal.risk_level, ActionRisk::High);

    let unseal = Action::new(
        "s1",
        ActionVariant::CredentialUnseal(CredentialUnsealParams {
            name: "api-key".to_string(),
        }),
        "unseal key",
    );
    assert_eq!(unseal.risk_level, ActionRisk::High);

    let reload = Action::new("s1", ActionVariant::PolicyReload, "reload");
    assert_eq!(reload.risk_level, ActionRisk::Medium);
}



fn human_actor() -> SessionActor {
    SessionActor {
        actor_type: ActorType::Human,
        identity: "user".to_string(),
    }
}

#[test]
fn session_starts_in_created_state() {
    let s = AgentSession::new(human_actor());
    assert_eq!(s.state, SessionState::Created);
    assert!(s.is_active());
    assert_eq!(s.request_count, 0);
}

#[test]
fn valid_transition_created_to_ready() {
    let mut s = AgentSession::new(human_actor());
    assert!(s.transition(SessionState::Ready).is_ok());
    assert_eq!(s.state, SessionState::Ready);
}

#[test]
fn invalid_transition_skips_ready() {
    let mut s = AgentSession::new(human_actor());
    assert!(s.transition(SessionState::Thinking).is_err());
    assert_eq!(s.state, SessionState::Created);
}

#[test]
fn terminal_states_block_transitions() {
    let mut s = AgentSession::new(human_actor());
    s.state = SessionState::Completed;
    assert!(!s.is_active());
    assert!(s.transition(SessionState::Ready).is_err());
}

#[test]
fn full_lifecycle() {
    let mut s = AgentSession::new(human_actor());
    assert!(s.transition(SessionState::Ready).is_ok());
    assert!(s.transition(SessionState::Thinking).is_ok());
    assert!(s.transition(SessionState::Planning).is_ok());
    assert!(s.transition(SessionState::Executing).is_ok());
    assert!(s.transition(SessionState::Observing).is_ok());
    assert!(s.transition(SessionState::Completed).is_ok());
    assert!(!s.is_active());
}

#[test]
fn cancellation_from_waiting_approval() {
    let mut s = AgentSession::new(human_actor());
    s.state = SessionState::WaitingApproval;
    assert!(s.transition(SessionState::Cancelled).is_ok());
    assert!(!s.is_active());
}

#[test]
fn session_id_display() {
    let id = SessionId::new();
    let display = id.to_string();
    assert_eq!(display.len(), 36); // UUID format
}

#[test]
fn error_count_increments() {
    let mut s = AgentSession::new(human_actor());
    assert_eq!(s.error_count, 0);
    s.mark_error();
    assert_eq!(s.error_count, 1);
}



#[test]
fn approval_request_creation() {
    let r = ApprovalRequest::new("s1", "a1", "file.delete", "high", "delete file");
    assert!(r.is_pending());
    assert!(!r.is_approved());
    assert_eq!(r.action_name, "file.delete");
}

#[test]
fn approve_sets_status() {
    let mut r = ApprovalRequest::new("s1", "a1", "file.delete", "high", "delete");
    r.approve();
    assert!(r.is_approved());
    assert!(r.resolved_at.is_some());
}

#[test]
fn deny_sets_status() {
    let mut r = ApprovalRequest::new("s1", "a1", "file.delete", "high", "delete");
    r.deny();
    assert_eq!(r.status, ApprovalStatus::Denied);
}

#[test]
fn approval_decision() {
    let rid = ApprovalRequestId::new();
    let d = ApprovalDecision::approve(rid, "user confirmed");
    assert_eq!(d.decision, ApprovalStatus::Approved);
}

#[test]
fn deny_decision() {
    let rid = ApprovalRequestId::new();
    let d = ApprovalDecision::deny(rid, "too dangerous");
    assert_eq!(d.decision, ApprovalStatus::Denied);
}



fn validator() -> Validator {
    Validator::new(vec![
        "application.launch".to_string(),
        "application.close".to_string(),
        "file.read".to_string(),
        "file.list".to_string(),
        "file.delete".to_string(),
        "system.status".to_string(),
        "window.list".to_string(),
    ])
}

#[test]
fn valid_action_passes() {
    let v = validator();
    let a = Action::new(
        "s1",
        ActionVariant::ApplicationLaunch(ApplicationLaunchParams {
            application_id: "calc".to_string(),
        }),
        "user asked",
    );
    let result = match v.validate(&a) {
        Ok(r) => r,
        Err(e) => panic!("validate failed: {e:?}"),
    };
    assert!(result.valid);
    assert!(result.schema_ok);
    assert!(result.capability_ok);
}

#[test]
fn missing_capability_fails() {
    let v = validator();
    let a = Action::new(
        "s1",
        ActionVariant::FileWrite(FileWriteParams {
            path: "/tmp/x".to_string(),
            content: "data".to_string(),
        }),
        "write",
    );
    let result = match v.validate(&a) {
        Ok(r) => r,
        Err(e) => panic!("validate failed: {e:?}"),
    };
    assert!(!result.valid);
    assert!(!result.capability_ok);
    assert!(result.errors.iter().any(|e| e.contains("file.write")));
}

#[test]
fn empty_session_id_fails() {
    let v = validator();
    let mut a = Action::new("s1", ActionVariant::SystemStatus, "check");
    a.session_id = String::new();
    let result = match v.validate(&a) {
        Ok(r) => r,
        Err(e) => panic!("validate failed: {e:?}"),
    };
    assert!(!result.valid);
    assert!(!result.schema_ok);
}

#[test]
fn empty_reason_fails() {
    let v = validator();
    let mut a = Action::new("s1", ActionVariant::SystemStatus, "");
    a.reason = String::new();
    let result = match v.validate(&a) {
        Ok(r) => r,
        Err(e) => panic!("validate failed: {e:?}"),
    };
    assert!(!result.valid);
}

#[test]
fn high_risk_requires_confirmation() {
    let v = validator();
    let a = Action::new(
        "s1",
        ActionVariant::FileDelete(FileDeleteParams { path: "/tmp/test".to_string() }),
        "cleanup",
    );
    let result = match v.validate(&a) {
        Ok(r) => r,
        Err(e) => panic!("validate failed: {e:?}"),
    };
    assert!(result.valid);
    assert!(result.requires_confirmation);
}

#[test]
fn low_risk_does_not_require_confirmation() {
    let v = validator();
    let a = Action::new("s1", ActionVariant::SystemStatus, "check");
    let result = match v.validate(&a) {
        Ok(r) => r,
        Err(e) => panic!("validate failed: {e:?}"),
    };
    assert!(!result.requires_confirmation);
}

#[test]
fn empty_application_id_fails() {
    let v = validator();
    let a = Action::new(
        "s1",
        ActionVariant::ApplicationLaunch(ApplicationLaunchParams {
            application_id: String::new(),
        }),
        "launch",
    );
    let result = match v.validate(&a) {
        Ok(r) => r,
        Err(e) => panic!("validate failed: {e:?}"),
    };
    assert!(!result.valid);
    assert!(!result.schema_ok);
}

#[test]
fn system_directory_delete_blocked() {
    let v = validator();
    let a = Action::new(
        "s1",
        ActionVariant::FileDelete(FileDeleteParams { path: "/".to_string() }),
        "nuke",
    );
    let result = match v.validate(&a) {
        Ok(r) => r,
        Err(e) => panic!("validate failed: {e:?}"),
    };
    assert!(!result.valid);
    assert!(result.errors.iter().any(|e| e.contains("system directory")));
}

#[test]
fn parse_intent_empty_capability_is_chat() {
    let env = IntentEnvelope {
        capability: String::new(),
        confidence: 0,
        entities: empty_object(),
        reason: "no intent".to_string(),
    };
    let out = match parse_intent(&env, "req-1") {
        Ok(o) => o,
        Err(e) => panic!("parse failed: {e:?}"),
    };
    assert!(out.is_none());
}

#[test]
fn parse_intent_unknown_capability_is_rejected() {
    let env = IntentEnvelope {
        capability: "agent.execute_shell".to_string(),
        confidence: 90,
        entities: object_with("command", text("rm -rf /")),
        reason: "user asked".to_string(),
    };
    let err = match parse_intent(&env, "req-1") {
        Ok(_) => panic!("expected rejection"),
        Err(e) => e,
    };
    assert!(matches!(err, StructuredIntentError::UnknownCapability(_)));
}

#[test]
fn parse_intent_valid_envelope_produces_typed_intent() {
    let env = IntentEnvelope {
        capability: "application.launch".to_string(),
        confidence: 90,
        entities: object_with("app", text("calculator")),
        reason: "user said open calculator".to_string(),
    };
    let intent = match parse_intent(&env, "req-1") {
        Ok(Some(i)) => i,
        Ok(None) => panic!("expected intent"),
        Err(e) => panic!("parse failed: {e:?}"),
    };
    assert_eq!(intent.intent_type, IntentType::ApplicationLaunch);
    assert_eq!(intent.confidence.0, 90);
    assert_eq!(intent.entities["app"], "calculator");
}

#[test]
fn parse_intent_rejects_confidence_over_100() {
    let env = IntentEnvelope {
        capability: "system.status".to_string(),
        confidence: 120,
        entities: empty_object(),
        reason: "x".to_string(),
    };
    let err = match parse_intent(&env, "r") {
        Ok(_) => panic!("expected error"),
        Err(e) => e,
    };
    assert!(matches!(err, StructuredIntentError::BadConfidence(120)));
}

#[test]
fn parse_intent_rejects_non_object_entities() {
    let env = IntentEnvelope {
        capability: "system.status".to_string(),
        confidence: 80,
        entities: text("not an object"),
        reason: "x".to_string(),
    };
    let err = match parse_intent(&env, "r") {
        Ok(_) => panic!("expected error"),
        Err(e) => e,
    };
    assert!(matches!(err, StructuredIntentError::BadEntities(_)));
}

#[test]
fn parse_intent_rejects_empty_reason() {
    let env = IntentEnvelope {
        capability: "system.status".to_string(),
        confidence: 80,
        entities: empty_object(),
        reason: "   ".to_string(),
    };
    let err = match parse_intent(&env, "r") {
        Ok(_) => panic!("expected error"),
        Err(e) => e,
    };
    assert_eq!(err, StructuredIntentError::EmptyReason);
}

#[test]
fn build_intent_prompt_includes_schema_and_capabilities() {
    let p = build_intent_prompt("open calculator", "running: notes");
    assert!(p.contains("application.launch"));
    assert!(p.contains("system.status"));
    assert!(p.contains("open calculator"));
    assert!(p.contains("running: notes"));
}

#[test]
fn build_intent_prompt_handles_empty_context() {
    let p = build_intent_prompt("hi", "");
    assert!(p.contains("(none)"));
}



#[test]
fn tool_creation() {
    let t = ToolDefinition::new("test.tool", "Test", "A test tool")
        .with_capability("test.cap")
        .with_risk_level(ToolRisk::Medium)
        .with_timeout(5000)
        .with_side_effect("state.change");
    assert_eq!(t.id, ToolId::new("test.tool"));
    assert_eq!(t.required_capabilities, vec!["test.cap".to_string()]);
    assert_eq!(t.risk_level, ToolRisk::Medium);
    assert_eq!(t.timeout_ms, 5000);
    assert_eq!(t.side_effects, vec!["state.change".to_string()]);
}

#[test]
fn registry_register_and_get() {
    let mut reg = ToolRegistry::new();
    let t = ToolDefinition::new("a", "A", "tool a");
    assert!(reg.register(t).is_ok());
    assert!(reg.get(&ToolId::new("a")).is_some());
    assert_eq!(reg.count(), 1);
}

#[test]
fn registry_rejects_duplicate() {
    let mut reg = ToolRegistry::new();
    assert!(reg.register(ToolDefinition::new("a", "A", "tool a")).is_ok());
    assert!(reg.register(ToolDefinition::new("a", "A2", "tool a2")).is_err());
}

#[test]
fn registry_unregister() {
    let mut reg = ToolRegistry::new();
    assert!(reg.register(ToolDefinition::new("a", "A", "tool a")).is_ok());
    assert!(reg.unregister(&ToolId::new("a")));
    assert!(reg.get(&ToolId::new("a")).is_none());
}

#[test]
fn registry_discover_by_capability() {
    let mut reg = ToolRegistry::new();
    assert!(reg
        .register(ToolDefinition::new("a", "A", "tool a").with_capability("cap.x"))
        .is_ok());
    assert!(reg
        .register(ToolDefinition::new("b", "B", "tool b").with_capability("cap.y"))
        .is_ok());
    assert!(reg
        .register(ToolDefinition::new("c", "C", "tool c").with_capability("cap.x"))
        .is_ok());
    let found = reg.discover("cap.x");
    assert_eq!(found.len(), 2);
}

#[test]
fn default_tools_has_14_entries() {
    let reg = default_tools();
    assert_eq!(reg.count(), 14);
}

#[test]
fn default_tools_are_registered_in_order() {
    let reg = default_tools();
    let ids: Vec<String> = reg.list().iter().map(|t| t.id.to_string()).collect();
    assert_eq!(ids[0], "filesystem.list");
    assert_eq!(ids[7], "application.launch");
    assert_eq!(ids[13], "window.inspect");
    let launch = reg.get(&ToolId::new("application.launch")).unwrap();
    assert_eq!(launch.risk_level, ToolRisk::Medium);
    assert_eq!(launch.required_capabilities, vec!["application.launch".to_string()]);
    let inspect = reg.get(&ToolId::new("window.inspect")).unwrap();
    assert_eq!(inspect.risk_level, ToolRisk::Low);
    assert_eq!(inspect.required_capabilities, vec!["window.list".to_string()]);
}

#[test]
fn tool_validate_input_missing_required() {
    let t = ToolDefinition::new("x", "X", "x")
        .with_input_schema(object_with("required", serde_json::Value::Array(vec![text("path")])));
    assert!(t.validate_input(&empty_object()).is_err());
    assert!(t.validate_input(&object_with("path", text("/tmp"))).is_ok());
}


#[test]
fn mock_provider_returns_predefined_responses() {
    let p = MockLlmProvider::new(vec!["hello".to_string(), "world".to_string()]);
    let r1 = p.next_response();
    assert_eq!(r1, "hello");
    let r2 = p.next_response();
    assert_eq!(r2, "world");
}

#[test]
fn mock_provider_wraps_around() {
    let p = MockLlmProvider::single("only");
    let _ = p.next_response();
    let r = p.next_response();
    assert_eq!(r, "only");
}

#[test]
fn echo_provider_echoes() {
    let p = EchoLlmProvider;
    let r = p.echo("test input");
    assert_eq!(r, "test input");
}

#[test]
fn health_check_passes() {
    let p = MockLlmProvider::single("x");
    assert!(p.health().is_ok());
}

#[test]
fn model_info() {
    let p = MockLlmProvider::single("x");
    let info = p.model_info();
    assert_eq!(info.name, "mock");
}

#[test]
fn select_returns_echo_by_default() {
    let p = choose_provider("nope", None, None, None);
    assert!(matches!(p, ProviderChoice::Echo));
}

#[test]
fn select_returns_ollama_when_kind_is_ollama() {
    match choose_provider("ollama", None, None, None) {
        ProviderChoice::Ollama(p) => {
            assert_eq!(p.name(), "ollama");
            let info = p.model_info();
            assert_eq!(info.name, DEFAULT_OLLAMA_MODEL);
        }
        other => panic!("expected ollama, got {other:?}"),
    }
}

#[test]
fn select_returns_openai_when_kind_is_openai() {
    match choose_provider("openai", Some("http://example"), Some("custom"), Some("k")) {
        ProviderChoice::OpenAI(p) => {
            assert_eq!(p.name(), "openai");
            let info = p.model_info();
            assert_eq!(info.name, "custom");
            assert!(info.capabilities.contains(&"authenticated".to_string()));
        }
        other => panic!("expected openai, got {other:?}"),
    }
}

#[test]
fn select_returns_mock_when_kind_is_mock() {
    let p = choose_provider("mock", None, None, None);
    assert!(matches!(p, ProviderChoice::Mock));
}

#[test]
fn authority_of_strips_scheme_and_path() {
    assert_eq!(authority_of("http://127.0.0.1:11434"), "127.0.0.1:11434");
    assert_eq!(authority_of("https://api.openai.com/v1"), "api.openai.com");
    assert_eq!(authority_of("127.0.0.1:1234"), "127.0.0.1:1234");
}

#[test]
fn default_tools_declare_names_schemas_and_side_effects() {
    let reg = default_tools();
    let list = reg.get(&ToolId::new("filesystem.list")).unwrap();
    assert_eq!(list.name, "List Files");
    assert_eq!(list.description, "List files in a directory");
    assert!(list.side_effects.is_empty());
    assert!(reg.validate_input(&ToolId::new("filesystem.list"), &empty_object()).is_err());
    assert!(reg.validate_input(&ToolId::new("filesystem.list"), &object_with("path", text("/"))).is_ok());
    let launch = reg.get(&ToolId::new("application.launch")).unwrap();
    assert_eq!(launch.side_effects, vec!["process.start".to_string()]);
    let close = reg.get(&ToolId::new("application.close")).unwrap();
    assert_eq!(close.side_effects, vec!["process.stop".to_string()]);
    let status = reg.get(&ToolId::new("system.status")).unwrap();
    assert!(reg.validate_input(&status.id, &empty_object()).is_ok());
    assert_eq!(status.timeout_ms, 30_000);
    assert!(!status.requires_confirmation);
}
