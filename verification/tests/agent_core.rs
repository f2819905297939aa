use aether_agent::agent_core::observation::{Observation, ObservationSeverity, OBSERVATION_LOG_LIMIT};
use aether_agent::agent_core::proposal::{
    proposal_to_task, propose_from_observations, validate_proposal, Proposal, ProposalError, ProposalId,
    ProposalRisk,
};
use aether_agent::agent_core::state::{AgentStatus, HistoryEntry, TaskStage, MAX_TASK_HISTORY};
use aether_agent::agent_core::task::{AgentTask, TaskDependencyError, TaskGraph, TaskId, TaskKind, TaskRisk};
use aether_agent::core_types::RiskLevel;

fn obj(pairs: &[(&str, serde_json::Value)]) -> serde_json::Value {
    let mut m = serde_json::Map::new();
    for (k, v) in pairs {
        m.insert(k.to_string(), v.clone());
    }
    serde_json::Value::Object(m)
}

// ------------------------------------------------------------ observation

#[test]
fn observation_new_rejects_empty_fields() {
    assert!(Observation::new("o1", "", "summary", ObservationSeverity::Info, 1).is_none());
    assert!(Observation::new("o1", "comp", "", ObservationSeverity::Info, 1).is_none());
    assert!(Observation::new("", "comp", "summary", ObservationSeverity::Info, 1).is_none());
}

#[test]
fn observation_new_accepts_minimal_valid_input() {
    let o = Observation::new("o1", "storage", "disk full", ObservationSeverity::Warning, 1);
    assert!(o.is_some());
}

#[test]
fn severity_as_str_is_stable() {
    assert_eq!(ObservationSeverity::Info.as_str(), "info");
    assert_eq!(ObservationSeverity::Notice.as_str(), "notice");
    assert_eq!(ObservationSeverity::Warning.as_str(), "warning");
    assert_eq!(ObservationSeverity::Critical.as_str(), "critical");
}

#[test]
fn builder_chain_attaches_detail_and_data() {
    let o = Observation::new("o1", "storage", "disk full", ObservationSeverity::Warning, 1)
        .expect("valid")
        .with_detail("the user is at 95% of the 500 GB quota")
        .with_data(obj(&[("percent", serde_json::Value::from(95))]));
    assert_eq!(o.detail.as_deref(), Some("the user is at 95% of the 500 GB quota"));
    assert_eq!(o.data, Some(obj(&[("percent", serde_json::Value::from(95))])));
}

#[test]
fn severity_ordering_is_info_lt_notice_lt_warning_lt_critical() {
    assert!(ObservationSeverity::Info < ObservationSeverity::Notice);
    assert!(ObservationSeverity::Notice < ObservationSeverity::Warning);
    assert!(ObservationSeverity::Warning < ObservationSeverity::Critical);
}

// --------------------------------------------------------------- proposal

fn observation(id: &str, severity: ObservationSeverity) -> Observation {
    Observation::new(id, "storage", "summary", severity, 1).expect("valid")
}

fn proposal(kind: TaskKind, risk: ProposalRisk) -> Proposal {
    Proposal::new("p1", kind, "title", "description", "reasoning", risk, 1).expect("valid")
}

#[test]
fn proposal_new_rejects_empty_fields() {
    assert!(Proposal::new("p1", TaskKind::Notify, "", "d", "r", ProposalRisk::Low, 1).is_none());
    assert!(Proposal::new("p1", TaskKind::Notify, "t", "", "r", ProposalRisk::Low, 1).is_none());
    assert!(Proposal::new("p1", TaskKind::Notify, "t", "d", "", ProposalRisk::Low, 1).is_none());
    assert!(Proposal::new("", TaskKind::Notify, "t", "d", "r", ProposalRisk::Low, 1).is_none());
}

#[test]
fn proposal_requires_consent_for_medium_and_above() {
    assert!(!ProposalRisk::Low.requires_consent());
    assert!(ProposalRisk::Medium.requires_consent());
    assert!(ProposalRisk::High.requires_consent());
    assert!(ProposalRisk::Critical.requires_consent());
}

#[test]
fn risk_maps_to_core_risk_level() {
    assert_eq!(ProposalRisk::Low.to_risk_level(), RiskLevel::Low);
    assert_eq!(ProposalRisk::Medium.to_risk_level(), RiskLevel::Medium);
    assert_eq!(ProposalRisk::High.to_risk_level(), RiskLevel::High);
    assert_eq!(ProposalRisk::Critical.to_risk_level(), RiskLevel::Critical);
}

#[test]
fn validate_proposal_accepts_well_formed_proposal() {
    let p = proposal(TaskKind::ProposeUpdate, ProposalRisk::High).with_evidence(vec!["o1".to_string()]);
    let obs = vec![observation("o1", ObservationSeverity::Warning)];
    assert!(validate_proposal(&p, &obs).is_ok());
}

#[test]
fn validate_proposal_rejects_unknown_evidence() {
    let p = proposal(TaskKind::ProposeUpdate, ProposalRisk::High).with_evidence(vec!["o1".to_string()]);
    let obs: Vec<Observation> = vec![];
    let err = validate_proposal(&p, &obs).unwrap_err();
    assert!(matches!(err, ProposalError::UnknownEvidence { .. }));
}

#[test]
fn validate_proposal_rejects_low_risk_for_propose_update() {
    let p = proposal(TaskKind::ProposeUpdate, ProposalRisk::Low);
    let err = validate_proposal(&p, &[]).unwrap_err();
    assert!(matches!(err, ProposalError::RiskTooLowForKind { .. }));
}

#[test]
fn validate_proposal_rejects_low_risk_for_propose_install() {
    let p = proposal(TaskKind::ProposeInstall, ProposalRisk::Low);
    let err = validate_proposal(&p, &[]).unwrap_err();
    assert!(matches!(err, ProposalError::RiskTooLowForKind { .. }));
}

#[test]
fn validate_proposal_rejects_low_risk_for_custom() {
    let p = proposal(TaskKind::Custom, ProposalRisk::Low);
    let err = validate_proposal(&p, &[]).unwrap_err();
    assert!(matches!(err, ProposalError::RiskTooLowForKind { .. }));
}

#[test]
fn validate_proposal_rejects_medium_for_propose_update() {
    let p = proposal(TaskKind::ProposeUpdate, ProposalRisk::Medium);
    let err = validate_proposal(&p, &[]).unwrap_err();
    assert!(matches!(err, ProposalError::RiskTooLowForKind { .. }));
}

#[test]
fn validate_proposal_accepts_low_for_notify() {
    let p = proposal(TaskKind::Notify, ProposalRisk::Low);
    assert!(validate_proposal(&p, &[]).is_ok());
}

#[test]
fn validate_proposal_accepts_medium_for_restart_service() {
    let p = proposal(TaskKind::RestartService, ProposalRisk::Medium);
    assert!(validate_proposal(&p, &[]).is_ok());
}

#[test]
fn propose_from_observations_partitions_results() {
    let p1 = proposal(TaskKind::Notify, ProposalRisk::Low);
    let p2 = proposal(TaskKind::ProposeUpdate, ProposalRisk::Low);
    let p3 = proposal(TaskKind::ProposeUpdate, ProposalRisk::High).with_evidence(vec!["missing".to_string()]);
    let (ok, errs) = propose_from_observations(&[p1.clone(), p2, p3], &[]);
    assert_eq!(ok.len(), 1);
    assert_eq!(ok[0].id, p1.id);
    assert_eq!(errs.len(), 2);
}

#[test]
fn proposal_to_task_carries_risk_target_and_args() {
    let p = proposal(TaskKind::ProposeCleanup, ProposalRisk::Medium)
        .with_target("aether-agentd")
        .with_arguments(obj(&[("max_age_ms", serde_json::Value::from(60000))]));
    let t = proposal_to_task(&p, TaskId::new("t1").unwrap()).expect("task");
    assert_eq!(t.risk, TaskRisk::Medium);
    assert_eq!(t.target.as_deref(), Some("aether-agentd"));
    assert_eq!(t.arguments, Some(obj(&[("max_age_ms", serde_json::Value::from(60000))])));
}

#[test]
fn risk_as_str_is_stable() {
    assert_eq!(ProposalRisk::Low.as_str(), "low");
    assert_eq!(ProposalRisk::Medium.as_str(), "medium");
    assert_eq!(ProposalRisk::High.as_str(), "high");
    assert_eq!(ProposalRisk::Critical.as_str(), "critical");
}

// ------------------------------------------------------------------- task

fn task(id: &str, kind: TaskKind) -> AgentTask {
    AgentTask::new(id, kind, "title", "description").expect("valid task")
}

#[test]
fn parses_task_id_only_for_non_empty() {
    assert!(TaskId::new("").is_none());
    assert!(TaskId::new("abc").is_some());
}

#[test]
fn task_new_rejects_empty_title_or_description() {
    assert!(AgentTask::new("t", TaskKind::Notify, "", "d").is_none());
    assert!(AgentTask::new("t", TaskKind::Notify, "t", "").is_none());
}

#[test]
fn kind_as_str_is_stable() {
    assert_eq!(TaskKind::RestartService.as_str(), "restart-service");
    assert_eq!(TaskKind::Notify.as_str(), "notify");
    assert_eq!(TaskKind::ProposeUpdate.as_str(), "propose-update");
    assert_eq!(TaskKind::ProposeInstall.as_str(), "propose-install");
    assert_eq!(TaskKind::ProposeCleanup.as_str(), "propose-cleanup");
    assert_eq!(TaskKind::ProposeSecurityScan.as_str(), "propose-security-scan");
    assert_eq!(TaskKind::Custom.as_str(), "custom");
}

#[test]
fn default_risk_is_per_kind() {
    assert_eq!(TaskKind::RestartService.default_risk(), TaskRisk::Medium);
    assert_eq!(TaskKind::Notify.default_risk(), TaskRisk::Low);
    assert_eq!(TaskKind::ProposeUpdate.default_risk(), TaskRisk::High);
    assert_eq!(TaskKind::ProposeInstall.default_risk(), TaskRisk::High);
    assert_eq!(TaskKind::ProposeCleanup.default_risk(), TaskRisk::Medium);
    assert_eq!(TaskKind::ProposeSecurityScan.default_risk(), TaskRisk::Medium);
    assert_eq!(TaskKind::Custom.default_risk(), TaskRisk::High);
}

#[test]
fn builder_chain_attaches_dependencies_and_args() {
    let t = task("a", TaskKind::Notify)
        .with_dependency(TaskId::new("b").unwrap())
        .with_target("svc")
        .with_arguments(obj(&[("k", serde_json::Value::from(1))]));
    assert_eq!(t.depends_on.len(), 1);
    assert_eq!(t.target.as_deref(), Some("svc"));
    assert_eq!(t.arguments, Some(obj(&[("k", serde_json::Value::from(1))])));
}

#[test]
fn graph_insert_rejects_duplicate() {
    let mut g = TaskGraph::new();
    g.insert(task("a", TaskKind::Notify)).unwrap();
    let err = g.insert(task("a", TaskKind::Notify)).unwrap_err();
    assert!(matches!(err, TaskDependencyError::Duplicate { .. }));
}

#[test]
fn graph_insert_rejects_unknown_dependency() {
    let mut g = TaskGraph::new();
    let t = task("a", TaskKind::Notify).with_dependency(TaskId::new("missing").unwrap());
    let err = g.insert(t).unwrap_err();
    assert!(matches!(err, TaskDependencyError::UnknownDependency { .. }));
}

#[test]
fn graph_insert_accepts_known_dependency() {
    let mut g = TaskGraph::new();
    g.insert(task("a", TaskKind::Notify)).unwrap();
    let t = task("b", TaskKind::Notify).with_dependency(TaskId::new("a").unwrap());
    g.insert(t).unwrap();
    assert_eq!(g.len(), 2);
}

#[test]
fn graph_insert_rejects_direct_cycle() {
    let mut g = TaskGraph::new();
    g.insert(task("a", TaskKind::Notify)).unwrap();
    let mut g2 = TaskGraph::new();
    g2.insert(task("a", TaskKind::Notify)).unwrap();
    let t = task("b", TaskKind::Notify).with_dependency(TaskId::new("a").unwrap());
    g2.insert(t).unwrap();
    let mut g3 = TaskGraph::new();
    g3.insert(task("a", TaskKind::Notify)).unwrap();
    g3.insert(task("b", TaskKind::Notify).with_dependency(TaskId::new("a").unwrap())).unwrap();
    let _ = g3;
    let _ = g;
}

#[test]
fn graph_ready_returns_tasks_with_no_pending_deps() {
    let mut g = TaskGraph::new();
    g.insert(task("a", TaskKind::Notify)).unwrap();
    g.insert(task("b", TaskKind::Notify).with_dependency(TaskId::new("a").unwrap())).unwrap();
    let done: Vec<TaskId> = vec![];
    let ready = g.ready(&done);
    assert_eq!(ready.len(), 1);
    assert_eq!(ready[0].id.as_str(), "a");
    let done = vec![TaskId::new("a").unwrap()];
    let ready = g.ready(&done);
    let mut ids: Vec<&str> = ready.iter().map(|t| t.id.as_str()).collect();
    ids.sort();
    assert_eq!(ids, vec!["a", "b"]);
}

#[test]
fn graph_remove_drops_task() {
    let mut g = TaskGraph::new();
    g.insert(task("a", TaskKind::Notify)).unwrap();
    g.remove(&TaskId::new("a").unwrap()).expect("removal");
    assert!(g.is_empty());
}

#[test]
fn transitively_depends_on_detects_two_hop_chain() {
    let mut g = TaskGraph::new();
    g.insert(task("a", TaskKind::Notify)).unwrap();
    g.insert(task("b", TaskKind::Notify).with_dependency(TaskId::new("a").unwrap())).unwrap();
    g.insert(task("c", TaskKind::Notify).with_dependency(TaskId::new("b").unwrap())).unwrap();
    let a_id = TaskId::new("a").unwrap();
    let c = g.get(&TaskId::new("c").unwrap()).unwrap();
    assert!(g.transitively_depends_on(c, &a_id));
}

#[test]
fn graph_rejects_task_that_a_dangling_dependency_would_close_into_a_cycle() {
    // After "a" is removed, "b" still names it; a new "a" depending on "b"
    // would close the cycle a -> b -> a.
    let mut g = TaskGraph::new();
    g.insert(task("a", TaskKind::Notify)).unwrap();
    g.insert(task("b", TaskKind::Notify).with_dependency(TaskId::new("a").unwrap())).unwrap();
    g.remove(&TaskId::new("a").unwrap()).expect("removal");
    let again = task("a", TaskKind::Notify).with_dependency(TaskId::new("b").unwrap());
    let err = g.insert(again).unwrap_err();
    assert!(matches!(err, TaskDependencyError::Cycle { .. }));
    assert_eq!(err.to_string(), "inserting task 'a' would create a cycle");
    assert_eq!(g.len(), 1);
}

#[test]
fn dependency_error_messages() {
    let a = TaskId::new("a").unwrap();
    let m = TaskId::new("m").unwrap();
    assert_eq!(TaskDependencyError::EmptyTaskId.to_string(), "task id is empty");
    assert_eq!(
        TaskDependencyError::UnknownDependency { task: a.clone(), missing: m }.to_string(),
        "task 'a' depends on unknown task 'm'"
    );
    assert_eq!(TaskDependencyError::Duplicate { id: a }.to_string(), "task 'a' already exists");
}

// ------------------------------------------------------------------ state

fn sample_task(id: &str) -> AgentTask {
    AgentTask::new(id, TaskKind::Notify, "title", "description").expect("valid task")
}

fn sample_observation(id: &str) -> Observation {
    Observation::new(id, "storage", "summary", ObservationSeverity::Info, 1).expect("valid")
}

fn sample_proposal(id: &str) -> Proposal {
    Proposal::new(id, TaskKind::Notify, "title", "description", "reasoning", ProposalRisk::Low, 1).expect("valid")
}

#[test]
fn new_status_is_empty() {
    let s = AgentStatus::new();
    assert_eq!(s.task_count(), 0);
    assert_eq!(s.proposal_count(), 0);
    assert_eq!(s.history_len(), 0);
    assert_eq!(s.observation_count(), 0);
}

#[test]
fn add_proposal_dedupes_on_id() {
    let mut s = AgentStatus::new();
    let p1 = sample_proposal("p1");
    let p2 = sample_proposal("p1");
    assert!(s.add_proposal(p1));
    assert!(!s.add_proposal(p2));
    assert_eq!(s.proposal_count(), 1);
}

#[test]
fn remove_proposal_returns_removed() {
    let mut s = AgentStatus::new();
    let p = sample_proposal("p1");
    s.add_proposal(p);
    let id = ProposalId::new("p1").unwrap();
    let removed = s.remove_proposal(&id);
    assert!(removed.is_some());
    assert!(s.proposal(&id).is_none());
}

#[test]
fn proposals_are_listed_by_id() {
    let mut s = AgentStatus::new();
    s.add_proposal(sample_proposal("p3"));
    s.add_proposal(sample_proposal("p1"));
    s.add_proposal(sample_proposal("p2"));
    let ids: Vec<&str> = s.proposals().iter().map(|p| p.id.as_str()).collect();
    assert_eq!(ids, vec!["p1", "p2", "p3"]);
}

#[test]
fn record_history_drops_overflow() {
    let mut s = AgentStatus::new();
    for i in 0..(MAX_TASK_HISTORY + 10) {
        let task = sample_task(&format!("t{i}"));
        s.record_history(HistoryEntry { task, stage: TaskStage::Done, timestamp_ms: i as u64, note: None });
    }
    assert_eq!(s.history_len(), MAX_TASK_HISTORY);
    assert_eq!(s.history()[0].timestamp_ms, 10);
}

#[test]
fn add_observation_drops_overflow() {
    let mut s = AgentStatus::new();
    for i in 0..(OBSERVATION_LOG_LIMIT + 5) {
        s.add_observation(sample_observation(&format!("o{i}")));
    }
    assert_eq!(s.observation_count(), OBSERVATION_LOG_LIMIT);
}

#[test]
fn stage_is_terminal_for_done_failed_cancelled() {
    assert!(!TaskStage::Proposed.is_terminal());
    assert!(!TaskStage::Approved.is_terminal());
    assert!(!TaskStage::Executing.is_terminal());
    assert!(TaskStage::Done.is_terminal());
    assert!(TaskStage::Failed.is_terminal());
    assert!(TaskStage::Cancelled.is_terminal());
}

#[test]
fn stage_as_str_is_stable() {
    assert_eq!(TaskStage::Proposed.as_str(), "proposed");
    assert_eq!(TaskStage::Approved.as_str(), "approved");
    assert_eq!(TaskStage::Executing.as_str(), "executing");
    assert_eq!(TaskStage::Done.as_str(), "done");
    assert_eq!(TaskStage::Failed.as_str(), "failed");
    assert_eq!(TaskStage::Cancelled.as_str(), "cancelled");
}

#[test]
fn tasks_returns_a_read_only_view() {
    let mut s = AgentStatus::new();
    let t = sample_task("a");
    s.insert_task(t).expect("insert");
    assert_eq!(s.tasks().len(), 1);
    assert!(s.remove_task(&TaskId::new("a").unwrap()).is_some());
    assert_eq!(s.task_count(), 0);
}
