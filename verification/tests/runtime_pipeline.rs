use aether_agent::agent_core::{
    propose_from_observations, AgentStatus, Observation, ObservationSeverity, Proposal, ProposalRisk, TaskKind,
    TaskStage,
};
use aether_agent::runtime::action::{
    Action, ActionId, ActionRisk, ActionVariant, ApplicationLaunchParams, FileDeleteParams, WindowCloseParams,
};
use aether_agent::runtime::errors::AgentError;
use aether_agent::runtime::events::AgentEvent;
use aether_agent::runtime::executor::{observation_for, ActionExecutor, ExecutionResult, ExecutionStep, ParamValue};
use aether_agent::runtime::host::{HostCore, HostState, Submission};
use aether_agent::runtime::observation::{observation_type_name, Observation as RuntimeObservation, ObservationType};
use aether_agent::runtime::proposal_generator::{drafts_to_proposals, parse_risk, parse_task_kind, ProposalDraft};
use aether_agent::runtime::proposal_runner::{ProposalRunner, RunnerError};
use aether_agent::runtime::request::{ActorType as RequestActorType, RequestActor};
use aether_agent::runtime::session::{ActorType, SessionActor, SessionId, SessionState};
use aether_agent::runtime::approval::{ApprovalRequestId, ApprovalStatus};

fn empty_object() -> serde_json::Value {
    serde_json::Value::Object(serde_json::Map::new())
}

// ---------------------------------------------------------------- events

#[test]
fn event_type_strings() {
    let e = AgentEvent::SessionCreated { session_id: "s1".to_string(), actor: "user".to_string() };
    assert_eq!(e.event_type(), "agent.session.created");
}

#[test]
fn approval_events_have_bus_names() {
    let e = AgentEvent::ApprovalRequested {
        session_id: "s".into(),
        action_id: "a".into(),
        action_name: "file.delete".into(),
        risk_level: "High".into(),
    };
    assert_eq!(e.event_type(), "agent.approval.requested");
    let e = AgentEvent::ApprovalDenied { session_id: "s".into(), action_id: "a".into(), reason: "no".into() };
    assert_eq!(e.event_type(), "agent.approval.denied");
    let e = AgentEvent::ActionCompleted { session_id: "s".into(), action_id: "a".into(), duration_ms: 3 };
    assert_eq!(e.event_type(), "agent.action.completed");
}

// ----------------------------------------------------------- observation

#[test]
fn observation_creation() {
    let obs = RuntimeObservation::new(
        "act-1",
        "sess-1".to_string(),
        ObservationType::ApplicationStarted { application_id: "calc".to_string() },
        empty_object(),
    );
    assert!(obs.success);
    assert_eq!(obs.action_id, "act-1");
    assert!(obs.timestamp > 0);
}

#[test]
fn error_observation_is_failure() {
    let obs = RuntimeObservation::new(
        "act-1",
        "sess-1".to_string(),
        ObservationType::Error { message: "failed".to_string() },
        empty_object(),
    );
    assert!(!obs.success);
}

#[test]
fn observation_type_names_are_dotted() {
    assert_eq!(observation_type_name(&ObservationType::WindowFocused { window_id: 3 }), "window.focused");
    assert_eq!(observation_type_name(&ObservationType::Error { message: "x".into() }), "error");
    assert_eq!(
        observation_type_name(&ObservationType::ContextSnapshot { data: empty_object() }),
        "context.snapshot"
    );
}

// -------------------------------------------------------------- executor

#[test]
fn application_launch_goes_to_system_core() {
    let exec = ActionExecutor::new(4747, 4750);
    let a = Action::new(
        "s1",
        ActionVariant::ApplicationLaunch(ApplicationLaunchParams { application_id: "calc".to_string() }),
        "open",
    );
    match exec.plan(&a) {
        Ok(ExecutionStep::Control { service_id, command, parameters }) => {
            assert_eq!(service_id, "aether-system-core");
            assert_eq!(command, "app.launch");
            assert_eq!(parameters.len(), 1);
            assert_eq!(parameters[0].0, "app");
            assert!(matches!(&parameters[0].1, ParamValue::Text(s) if s == "calc"));
        }
        other => panic!("expected a control step, got {other:?}"),
    }
}

#[test]
fn system_status_uses_the_status_command() {
    let exec = ActionExecutor::new(4747, 4750);
    let a = Action::new("s1", ActionVariant::SystemStatus, "check");
    match exec.plan(&a) {
        Ok(ExecutionStep::Control { command, parameters, .. }) => {
            assert_eq!(command, "status");
            assert!(parameters.is_empty());
        }
        other => panic!("expected a control step, got {other:?}"),
    }
}

#[test]
fn window_close_without_target_is_refused() {
    let exec = ActionExecutor::new(4747, 4750);
    let a = Action::new(
        "s1",
        ActionVariant::WindowClose(WindowCloseParams { window_id: None, application_id: None }),
        "close",
    );
    match exec.plan(&a) {
        Err(AgentError::Execution(m)) => assert_eq!(m, "Window close requires ID or app_id"),
        other => panic!("expected an execution error, got {other:?}"),
    }
}

#[test]
fn window_close_by_app_goes_to_surface() {
    let exec = ActionExecutor::new(4747, 4750);
    let a = Action::new(
        "s1",
        ActionVariant::WindowClose(WindowCloseParams { window_id: None, application_id: Some("notes".into()) }),
        "close",
    );
    match exec.plan(&a) {
        Ok(ExecutionStep::Surface { payload }) => {
            assert_eq!(payload.len(), 2);
            assert!(matches!(&payload[0].1, ParamValue::Text(s) if s == "window.close"));
            assert_eq!(payload[1].0, "app_id");
        }
        other => panic!("expected a surface step, got {other:?}"),
    }
}

#[test]
fn context_get_is_local_and_unrouted_actions_are_refused() {
    let exec = ActionExecutor::new(4747, 4750);
    let a = Action::new("s1", ActionVariant::ContextGet, "ctx");
    assert!(matches!(exec.plan(&a), Ok(ExecutionStep::Local)));
    let b = Action::new("s1", ActionVariant::DisplayList, "list");
    match exec.plan(&b) {
        Err(AgentError::Execution(m)) => assert_eq!(m, "no executor route for action 'display.list'"),
        other => panic!("expected an execution error, got {other:?}"),
    }
}

#[test]
fn window_list_observation_takes_the_windows_member() {
    let mut m = serde_json::Map::new();
    m.insert("windows".to_string(), serde_json::Value::Array(vec![serde_json::Value::from(7u64)]));
    let reply = serde_json::Value::Object(m);
    match observation_for(&ActionVariant::WindowList, &reply) {
        ObservationType::WindowList { windows } => assert_eq!(windows, serde_json::Value::Array(vec![7u64.into()])),
        other => panic!("unexpected {other:?}"),
    }
    match observation_for(&ActionVariant::WindowList, &empty_object()) {
        ObservationType::WindowList { windows } => assert!(windows.is_null()),
        other => panic!("unexpected {other:?}"),
    }
}

// ------------------------------------------------------ proposal runner

fn make_obs(id: &str) -> Observation {
    Observation {
        id: id.to_string(),
        component: "test".to_string(),
        summary: format!("obs {id}"),
        detail: None,
        severity: ObservationSeverity::Warning,
        timestamp_ms: 1000,
        data: None,
    }
}

#[test]
fn triage_separates_risk_levels() {
    let low = Proposal::new("p1", TaskKind::RestartService, "Restart", "desc", "reason", ProposalRisk::Low, 1000)
        .unwrap();
    let high = Proposal::new("p2", TaskKind::ProposeUpdate, "Update", "desc", "reason", ProposalRisk::High, 1000)
        .unwrap();
    let runner = ProposalRunner::new("test-session");
    let (auto, consent) = runner.triage_proposals(&[low, high]);
    assert_eq!(auto.len(), 1);
    assert_eq!(auto[0].id.as_str(), "p1");
    assert_eq!(consent.len(), 1);
    assert_eq!(consent[0].action_id.as_str(), "p2");
}

#[test]
fn execute_proposal_converts_to_task_and_action() {
    let proposal = Proposal::new(
        "p-exec",
        TaskKind::Notify,
        "Notify",
        "notification description",
        "test reasoning",
        ProposalRisk::Low,
        2000,
    )
    .unwrap();
    let runner = ProposalRunner::new("test-session");
    let mut status = AgentStatus::new();
    let (task_id, action) = match runner.prepare_proposal(&mut status, &proposal, 3000) {
        Ok(x) => x,
        Err(run) => panic!("prepare failed: {:?}", run.error),
    };
    assert_eq!(task_id.as_str(), "task-3000-p-exec");
    assert!(matches!(action.variant, ActionVariant::ContextGet));
    // The executor is not reachable here; the pipeline records the failure.
    let result = runner.finish_proposal(
        &mut status,
        proposal.id.as_str(),
        &task_id,
        Err(AgentError::Ipc("connect 4747: refused".to_string())),
        3000,
    );
    assert_eq!(result.proposal_id, "p-exec");
    assert!(result.task_id.is_some());
    assert_eq!(status.history_len(), 1);
    assert_eq!(status.history()[0].stage, TaskStage::Failed);
    assert_eq!(status.task_count(), 0);
}

#[test]
fn finished_proposal_is_recorded_done() {
    let proposal =
        Proposal::new("abcdefghij", TaskKind::Notify, "Notify", "d", "r", ProposalRisk::Low, 1).unwrap();
    let runner = ProposalRunner::new("s");
    let mut status = AgentStatus::new();
    let (task_id, action) = runner.prepare_proposal(&mut status, &proposal, 42).unwrap_or_else(|_| panic!("prepare"));
    assert_eq!(task_id.as_str(), "task-42-abcdefgh");
    let obs = RuntimeObservation::new(
        "a",
        "s".to_string(),
        ObservationType::ContextSnapshot { data: empty_object() },
        empty_object(),
    );
    let _ = action;
    let result = runner.finish_proposal(
        &mut status,
        proposal.id.as_str(),
        &task_id,
        Ok(ExecutionResult { success: true, observation: obs, duration_ms: 12 }),
        50,
    );
    assert!(result.error.is_none());
    assert_eq!(status.history()[0].stage, TaskStage::Done);
    assert_eq!(status.history()[0].note.as_deref(), Some("action completed in 12ms"));
}

#[test]
fn unconvertible_proposal_is_recorded_failed() {
    let proposal = Proposal::new("p9", TaskKind::ProposeUpdate, "Update", "d", "r", ProposalRisk::High, 1).unwrap();
    let runner = ProposalRunner::new("s");
    let mut status = AgentStatus::new();
    match runner.prepare_proposal(&mut status, &proposal, 7) {
        Err(run) => {
            assert!(matches!(run.error, Some(RunnerError::TaskToAction(_))));
            assert_eq!(status.history()[0].stage, TaskStage::Failed);
            assert!(status.history()[0].note.as_deref().unwrap_or("").starts_with("task_to_action failed: "));
        }
        Ok(_) => panic!("meta-proposals need a human operator"),
    }
}

#[test]
fn runner_error_display() {
    let err = RunnerError::ProposalNotFound("abc".into());
    assert!(err.to_string().contains("abc"));
    let err = RunnerError::ProposalToTaskFailed;
    assert!(err.to_string().contains("proposal-to-task"));
}

// --------------------------------------------------- proposal generator

fn draft(kind: &str, title: &str, risk: &str) -> ProposalDraft {
    ProposalDraft {
        kind: kind.to_string(),
        title: title.to_string(),
        description: "...".to_string(),
        reasoning: "...".to_string(),
        risk: risk.to_string(),
        target: None,
        arguments: None,
    }
}

#[test]
fn empty_observations_returns_empty() {
    let proposals = drafts_to_proposals(Vec::new(), 1000, &[]).unwrap();
    let (accepted, rejected) = propose_from_observations(&proposals, &[]);
    assert!(accepted.is_empty());
    assert!(rejected.is_empty());
}

#[test]
fn parses_valid_proposals() {
    let mut d = draft("RestartService", "Restart network service", "Medium");
    d.description = "Network service appears unresponsive".to_string();
    d.reasoning = "Observation shows network unreachable".to_string();
    d.target = Some("network".to_string());
    let obs = vec![make_obs("obs-net-1")];
    let proposals = drafts_to_proposals(vec![d], 2000, &obs).unwrap();
    let (accepted, rejected) = propose_from_observations(&proposals, &obs);
    assert_eq!(accepted.len(), 1);
    assert!(rejected.is_empty());
    assert_eq!(accepted[0].kind, TaskKind::RestartService);
    assert_eq!(accepted[0].risk, ProposalRisk::Medium);
    assert_eq!(accepted[0].id.as_str(), "prop-llm-2000-0");
    assert_eq!(accepted[0].evidence, vec!["obs-net-1".to_string()]);
}

#[test]
fn rejects_invalid_kind() {
    let obs = vec![make_obs("obs-1")];
    let result = drafts_to_proposals(vec![draft("BogusKind", "Do something", "Low")], 3000, &obs);
    assert!(result.is_err());
    assert!(result.unwrap_err().contains("unknown kind"));
}

#[test]
fn rejects_invalid_risk() {
    let obs = vec![make_obs("obs-1")];
    let result = drafts_to_proposals(vec![draft("RestartService", "Restart", "Banana")], 4000, &obs);
    assert!(result.is_err());
    assert!(result.unwrap_err().contains("unknown risk"));
}

#[test]
fn parses_multiple_proposals() {
    let obs = vec![make_obs("obs-1"), make_obs("obs-2")];
    let drafts = vec![draft("RestartService", "Restart A", "Medium"), draft("ProposeCleanup", "Free disk", "Medium")];
    let proposals = drafts_to_proposals(drafts, 5000, &obs).unwrap();
    let (accepted, _rejected) = propose_from_observations(&proposals, &obs);
    assert_eq!(accepted.len(), 2);
    assert_eq!(accepted[1].id.as_str(), "prop-llm-5000-1");
}

#[test]
fn empty_title_names_the_draft_index() {
    let result = drafts_to_proposals(vec![draft("Notify", "ok", "Low"), draft("Notify", "", "Low")], 1, &[]);
    assert_eq!(result.unwrap_err(), "invalid proposal at index 1");
    assert_eq!(parse_task_kind("ProposeInstall"), Some(TaskKind::ProposeInstall));
    assert_eq!(parse_risk("Critical"), Some(ProposalRisk::Critical));
    assert_eq!(parse_risk("critical"), None);
}

// ----------------------------------------------------------- host core

fn session_actor() -> SessionActor {
    SessionActor { actor_type: ActorType::Human, identity: "test-user".to_string() }
}

fn test_actor() -> RequestActor {
    RequestActor { actor_type: RequestActorType::Human, identity: "test-user".to_string() }
}

fn host() -> HostCore {
    HostCore::start(vec![
        "application.launch".to_string(),
        "application.close".to_string(),
        "system.status".to_string(),
        "window.list".to_string(),
    ])
}

fn file_delete_action(session_id: &str) -> Action {
    Action::new(
        session_id,
        ActionVariant::FileDelete(FileDeleteParams { path: "/tmp/test".to_string() }),
        "user asked",
    )
}

#[test]
fn host_starts_in_ready() {
    let h = host();
    assert_eq!(h.state(), HostState::Ready);
}

#[test]
fn state_transitions_are_strict() {
    let mut h = host();
    assert!(h.transition_state(HostState::Stopping, "bad").is_err());
    h.create_session_at(1, session_actor()).unwrap();
    assert_eq!(h.state(), HostState::Running);
}

#[test]
fn invalid_lifecycle_to_failed_is_allowed() {
    let mut h = host();
    h.fail();
    assert_eq!(h.state(), HostState::Failed);
}

#[test]
fn host_rejects_work_after_failed() {
    let mut h = host();
    h.fail();
    let res = h.create_session_at(1, session_actor());
    assert!(res.is_err());
}

#[test]
fn session_count_increments() {
    let mut h = host();
    let _ = h.create_session_at(1, session_actor()).unwrap();
    let _ = h.create_session_at(2, session_actor()).unwrap();
    assert_eq!(h.session_count(), 2);
}

#[test]
fn list_sessions_returns_newest_first() {
    let mut h = host();
    let id1 = h.create_session_at(1, session_actor()).unwrap();
    let id2 = h.create_session_at(2, session_actor()).unwrap();
    let list = h.sessions_newest_first();
    assert_eq!(list.len(), 2);
    assert_eq!(list[0].session.id.to_string(), id2.to_string());
    assert_eq!(list[1].session.id.to_string(), id1.to_string());
}

#[test]
fn cancel_unknown_session_returns_not_found() {
    let mut h = host();
    let id = SessionId::new();
    assert!(h.cancel_session(&id).is_err());
}

#[test]
fn stop_is_idempotent_and_cancels_sessions() {
    let mut h = host();
    let id = h.create_session_at(1, session_actor()).unwrap();
    h.stop().unwrap();
    assert_eq!(h.state(), HostState::Stopped);
    assert_eq!(h.session_state(&id), Some(SessionState::Cancelled));
    h.stop().unwrap();
}

#[test]
fn max_sessions_enforced() {
    let mut h = host();
    h.set_max_sessions(2);
    let _ = h.create_session_at(1, session_actor()).unwrap();
    let _ = h.create_session_at(2, session_actor()).unwrap();
    let res = h.create_session_at(3, session_actor());
    assert!(res.is_err());
}

#[test]
fn cancelled_session_refuses_work() {
    let mut h = host();
    let id = h.create_session_at(1, session_actor()).unwrap();
    assert!(h.cancel_session(&id).unwrap());
    assert!(!h.cancel_session(&id).unwrap());
    let action = Action::new(&id.to_string(), ActionVariant::SystemStatus, "check");
    assert!(h.submit_at(2, &id, &test_actor(), action).is_err());
}

#[test]
fn submit_high_risk_action_parks_and_returns_pending_approval_id() {
    let mut h = HostCore::start(vec!["file.delete".to_string()]);
    let id = h.create_session_at(1, session_actor()).unwrap();
    let action = file_delete_action(&id.to_string());
    match h.submit_at(2, &id, &test_actor(), action).unwrap() {
        Submission::Parked(v, approval_id, _) => {
            assert!(v.requires_confirmation);
            assert_eq!(h.pending_count(), 1);
            assert_eq!(h.pending()[0].approval.id, approval_id);
            assert_eq!(h.pending()[0].approval.risk_level, "High");
        }
        other => panic!("expected a parked action, got {other:?}"),
    }
    assert_eq!(h.session_state(&id), Some(SessionState::WaitingApproval));
}

#[test]
fn submit_low_risk_action_does_not_park() {
    let mut h = HostCore::start(vec!["system.status".to_string()]);
    let id = h.create_session_at(1, session_actor()).unwrap();
    let action = Action::new(&id.to_string(), ActionVariant::SystemStatus, "check");
    match h.submit_at(2, &id, &test_actor(), action).unwrap() {
        Submission::Execute(v, a, req) => {
            assert!(v.valid);
            assert_eq!(a.risk_level, ActionRisk::Low);
            assert_eq!(req.input, "check");
        }
        other => panic!("expected an executable action, got {other:?}"),
    }
    assert_eq!(h.pending_count(), 0);
}

#[test]
fn ungranted_action_is_rejected() {
    let mut h = HostCore::start(Vec::new());
    let id = h.create_session_at(1, session_actor()).unwrap();
    let action = Action::new(&id.to_string(), ActionVariant::SystemStatus, "check");
    match h.submit_at(2, &id, &test_actor(), action).unwrap() {
        Submission::Rejected(v) => {
            assert!(!v.valid);
            assert!(!v.capability_ok);
        }
        other => panic!("expected a rejection, got {other:?}"),
    }
}

#[test]
fn approve_request_unknown_id_returns_none() {
    let mut h = HostCore::start(vec!["file.delete".to_string()]);
    let bogus = ApprovalRequestId::new();
    assert!(h.take_pending(&bogus).is_none());
}

#[test]
fn deny_request_unknown_id_returns_false() {
    let mut h = HostCore::start(vec!["file.delete".to_string()]);
    let bogus = ApprovalRequestId::new();
    assert!(h.take_pending(&bogus).is_none());
    assert_eq!(h.pending_count(), 0);
}

#[test]
fn approve_request_after_approve_again_returns_none() {
    let mut h = HostCore::start(vec!["file.delete".to_string()]);
    let id = h.create_session_at(1, session_actor()).unwrap();
    let approval_id = match h.submit_at(2, &id, &test_actor(), file_delete_action(&id.to_string())).unwrap() {
        Submission::Parked(_, aid, _) => aid,
        other => panic!("expected a parked action, got {other:?}"),
    };
    assert!(h.take_pending(&approval_id).is_some());
    assert!(h.take_pending(&approval_id).is_none());
}

#[test]
fn evict_oldest_pending_approval_when_cap_exceeded() {
    let mut h = HostCore::start(vec!["file.delete".to_string()]);
    h.set_max_pending_approvals(1);
    let id1 = h.create_session_at(1, session_actor()).unwrap();
    let id2 = h.create_session_at(2, session_actor()).unwrap();
    match h.submit_at(10, &id1, &test_actor(), file_delete_action(&id1.to_string())).unwrap() {
        Submission::Parked(_, _, evicted) => assert!(evicted.is_none()),
        other => panic!("expected a parked action, got {other:?}"),
    }
    match h.submit_at(20, &id2, &test_actor(), file_delete_action(&id2.to_string())).unwrap() {
        Submission::Parked(_, _, Some(evicted)) => {
            assert_eq!(evicted.approval.session_id, id1.to_string());
            assert_eq!(evicted.approval.status, ApprovalStatus::Expired);
        }
        other => panic!("expected an eviction, got {other:?}"),
    }
    assert_eq!(h.pending_count(), 1);
    assert_eq!(h.pending()[0].approval.session_id, id2.to_string());
}

#[test]
fn list_pending_approvals_returns_oldest_first() {
    let mut h = HostCore::start(vec!["file.delete".to_string()]);
    let id1 = h.create_session_at(1, session_actor()).unwrap();
    let id2 = h.create_session_at(2, session_actor()).unwrap();
    let _ = h.submit_at(10, &id1, &test_actor(), file_delete_action(&id1.to_string())).unwrap();
    let _ = h.submit_at(20, &id2, &test_actor(), file_delete_action(&id2.to_string())).unwrap();
    let list = h.pending();
    assert_eq!(list.len(), 2);
    assert_eq!(list[0].approval.session_id, id1.to_string());
    assert_eq!(list[1].approval.session_id, id2.to_string());
}

#[test]
fn cancel_action_drops_its_token() {
    let mut h = host();
    let id = h.create_session_at(1, session_actor()).unwrap();
    let action_id = ActionId::new();
    let token = aether_agent::runtime::cancellation::CancellationToken::new();
    h.record_action(&id, action_id, token.clone());
    assert!(h.cancel_action(&id, &action_id).unwrap());
    assert!(token.is_cancelled());
    assert!(!h.cancel_action(&id, &action_id).unwrap());
}

#[test]
fn submit_to_unknown_session_is_not_found() {
    let mut h = host();
    let id = SessionId::new();
    let action = Action::new(&id.to_string(), ActionVariant::SystemStatus, "check");
    match h.submit_at(2, &id, &test_actor(), action) {
        Err(AgentError::NotFound(m)) => assert_eq!(m, format!("session {}", id.to_string())),
        other => panic!("expected not found, got {other:?}"),
    }
    assert_eq!(h.pending_count(), 0);
}

#[test]
fn submitted_action_moves_only_its_session_to_planning() {
    let mut h = HostCore::start(vec!["system.status".to_string()]);
    let id1 = h.create_session_at(1, session_actor()).unwrap();
    let id2 = h.create_session_at(2, session_actor()).unwrap();
    let action = Action::new(&id1.to_string(), ActionVariant::SystemStatus, "check");
    assert!(matches!(h.submit_at(3, &id1, &test_actor(), action).unwrap(), Submission::Execute(..)));
    assert_eq!(h.session_state(&id1), Some(SessionState::Planning));
    assert_eq!(h.session_state(&id2), Some(SessionState::Ready));
    assert_eq!(h.session(&id1).unwrap().session.updated_at, 3);
}

#[test]
fn rejected_action_leaves_session_planning() {
    let mut h = HostCore::start(Vec::new());
    let id = h.create_session_at(1, session_actor()).unwrap();
    let action = Action::new(&id.to_string(), ActionVariant::SystemStatus, "check");
    assert!(matches!(h.submit_at(2, &id, &test_actor(), action).unwrap(), Submission::Rejected(..)));
    assert_eq!(h.session_state(&id), Some(SessionState::Planning));
    assert_eq!(h.pending_count(), 0);
}

#[test]
fn submit_to_a_session_past_planning_is_refused() {
    let mut h = HostCore::start(vec!["system.status".to_string()]);
    let id = h.create_session_at(1, session_actor()).unwrap();
    let first = Action::new(&id.to_string(), ActionVariant::SystemStatus, "check");
    let _ = h.submit_at(2, &id, &test_actor(), first).unwrap();
    let second = Action::new(&id.to_string(), ActionVariant::SystemStatus, "again");
    assert!(matches!(h.submit_at(3, &id, &test_actor(), second), Err(AgentError::Session(_))));
    assert_eq!(h.session_state(&id), Some(SessionState::Planning));
}

fn executing_session(h: &mut HostCore, now: u64) -> SessionId {
    let id = h.create_session_at(now, session_actor()).unwrap();
    let action = Action::new(&id.to_string(), ActionVariant::SystemStatus, "check");
    let _ = h.submit_at(now, &id, &test_actor(), action).unwrap();
    h.advance_session_at(now, &id, SessionState::Executing).unwrap();
    id
}

#[test]
fn finished_execution_completes_the_session() {
    let mut h = HostCore::start(vec!["system.status".to_string()]);
    let id = executing_session(&mut h, 1);
    h.finish_execution(5, &id, true).unwrap();
    assert_eq!(h.session_state(&id), Some(SessionState::Completed));
    assert_eq!(h.session(&id).unwrap().session.updated_at, 5);
}

#[test]
fn failed_execution_fails_the_session_and_counts_an_error() {
    let mut h = HostCore::start(vec!["system.status".to_string()]);
    let id = executing_session(&mut h, 1);
    h.finish_execution(5, &id, false).unwrap();
    assert_eq!(h.session_state(&id), Some(SessionState::Failed));
    assert_eq!(h.session(&id).unwrap().session.error_count, 1);
}

#[test]
fn finishing_outside_execution_is_refused_after_success() {
    let mut h = HostCore::start(vec!["system.status".to_string()]);
    let id = h.create_session_at(1, session_actor()).unwrap();
    assert!(matches!(h.finish_execution(2, &id, true), Err(AgentError::Session(_))));
    assert_eq!(h.session_state(&id), Some(SessionState::Ready));
    let unknown = SessionId::new();
    assert!(matches!(h.finish_execution(2, &unknown, true), Err(AgentError::NotFound(_))));
    assert!(h.finish_execution(2, &unknown, false).is_ok());
}

#[test]
fn lowering_the_cap_keeps_parked_actions_and_evicts_on_next_park() {
    let mut h = HostCore::start(vec!["file.delete".to_string()]);
    let id1 = h.create_session_at(1, session_actor()).unwrap();
    let id2 = h.create_session_at(2, session_actor()).unwrap();
    let id3 = h.create_session_at(3, session_actor()).unwrap();
    let _ = h.submit_at(10, &id1, &test_actor(), file_delete_action(&id1.to_string())).unwrap();
    let _ = h.submit_at(20, &id2, &test_actor(), file_delete_action(&id2.to_string())).unwrap();
    h.set_max_pending_approvals(1);
    assert_eq!(h.pending_count(), 2);
    match h.submit_at(30, &id3, &test_actor(), file_delete_action(&id3.to_string())).unwrap() {
        Submission::Parked(_, _, Some(evicted)) => assert_eq!(evicted.approval.session_id, id1.to_string()),
        other => panic!("expected an eviction, got {other:?}"),
    }
    assert_eq!(h.pending_count(), 2);
}
