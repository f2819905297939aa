use aether_agent::agent_core::{AgentTask, TaskId, TaskKind, TaskRisk};
use aether_agent::background::{
    action_to_task, fire_time_triggers, select_unplanned, subsystem_for_payload, workflow_items, ActionItem,
    ActionKind, ActionQueue, ActionReason, FiringLog, Subsystem,
};

fn text(s: &str) -> serde_json::Value {
    serde_json::Value::String(s.to_string())
}

fn object(members: &[(&str, serde_json::Value)]) -> serde_json::Value {
    let mut m = serde_json::Map::new();
    for (k, v) in members {
        m.insert(k.to_string(), v.clone());
    }
    serde_json::Value::Object(m)
}

#[test]
fn action_kind_as_str() {
    assert_eq!(ActionKind::Recovery.as_str(), "recovery");
    assert_eq!(ActionKind::Workflow.as_str(), "workflow");
}

#[test]
fn action_reason_summary() {
    assert_eq!(ActionReason::Symptom("x".into()).summary(), "Symptom `x`");
    assert_eq!(ActionReason::Workflow("y".into()).summary(), "Workflow `y`");
}

#[test]
fn action_item_workflow_id() {
    let i = ActionItem {
        kind: ActionKind::Workflow,
        reason: ActionReason::Workflow("wf".into()),
        title: "t".into(),
        description: "d".into(),
        requires_consent: false,
        task_kind: TaskKind::Notify,
        task_risk: TaskRisk::Low,
        subsystem: None,
        payload: object(&[]),
    };
    assert_eq!(i.workflow_id(), Some("wf"));
    assert_eq!(i.symptom_id(), None);
}

#[test]
fn action_item_symptom_id() {
    let i = ActionItem {
        kind: ActionKind::Recovery,
        reason: ActionReason::Symptom("s".into()),
        title: "t".into(),
        description: "d".into(),
        requires_consent: false,
        task_kind: TaskKind::RestartService,
        task_risk: TaskRisk::Medium,
        subsystem: Some(Subsystem::Service),
        payload: object(&[]),
    };
    assert_eq!(i.symptom_id(), Some("s"));
    assert_eq!(i.workflow_id(), None);
}

#[test]
fn action_queue_partition_consent() {
    let i1 = ActionItem {
        kind: ActionKind::Recovery,
        reason: ActionReason::Symptom("s".into()),
        title: "t1".into(),
        description: "d".into(),
        requires_consent: false,
        task_kind: TaskKind::ProposeCleanup,
        task_risk: TaskRisk::Medium,
        subsystem: Some(Subsystem::Memory),
        payload: object(&[]),
    };
    let i2 = ActionItem {
        kind: ActionKind::Recovery,
        reason: ActionReason::Symptom("s".into()),
        title: "t2".into(),
        description: "d".into(),
        requires_consent: true,
        task_kind: TaskKind::Custom,
        task_risk: TaskRisk::High,
        subsystem: Some(Subsystem::Other),
        payload: object(&[]),
    };
    let q = ActionQueue::new().push(i1).push(i2);
    let (auto, consent) = q.partition_consent();
    assert_eq!(auto.len(), 1);
    assert_eq!(consent.len(), 1);
    assert!(!auto[0].requires_consent);
    assert!(consent[0].requires_consent);
}

#[test]
fn action_queue_consent_count() {
    let i1 = ActionItem {
        kind: ActionKind::Recovery,
        reason: ActionReason::Symptom("s".into()),
        title: "t".into(),
        description: "d".into(),
        requires_consent: false,
        task_kind: TaskKind::Notify,
        task_risk: TaskRisk::Low,
        subsystem: None,
        payload: object(&[]),
    };
    let i2 = ActionItem {
        kind: ActionKind::Recovery,
        reason: ActionReason::Symptom("s".into()),
        title: "t".into(),
        description: "d".into(),
        requires_consent: true,
        task_kind: TaskKind::Custom,
        task_risk: TaskRisk::High,
        subsystem: None,
        payload: object(&[]),
    };
    let q = ActionQueue::new().push(i1).push(i2);
    assert_eq!(q.consent_count(), 1);
    assert!(q.needs_consent());
}

#[test]
fn action_to_task_carries_payload_and_risk() {
    let item = ActionItem {
        kind: ActionKind::Recovery,
        reason: ActionReason::Symptom("s".into()),
        title: "Drop page cache".into(),
        description: "d".into(),
        requires_consent: false,
        task_kind: TaskKind::ProposeCleanup,
        task_risk: TaskRisk::Medium,
        subsystem: Some(Subsystem::Memory),
        payload: object(&[("kind", text("drop_page_cache")), ("reason", text("x"))]),
    };
    let task = action_to_task(&item, &TaskId::new("t1").unwrap(), 0).expect("task");
    assert_eq!(task.kind, TaskKind::ProposeCleanup);
    assert_eq!(task.risk, TaskRisk::Medium);
    assert_eq!(task.arguments.unwrap()["kind"], "drop_page_cache");
}

#[test]
fn subsystem_for_payload_maps_action_kinds() {
    let p = object(&[("action", object(&[("kind", text("launch_app"))]))]);
    assert_eq!(subsystem_for_payload(&p), Some(Subsystem::App));
    let p = object(&[("action", object(&[("kind", text("wait"))]))]);
    assert_eq!(subsystem_for_payload(&p), None);
    let p = object(&[("action", object(&[("kind", text("open_file"))]))]);
    assert_eq!(subsystem_for_payload(&p), Some(Subsystem::FileSystem));
}

#[test]
fn action_queue_merge_preserves_order() {
    let a = ActionQueue::new().push(ActionItem {
        kind: ActionKind::Recovery,
        reason: ActionReason::Symptom("s".into()),
        title: "a".into(),
        description: "".into(),
        requires_consent: false,
        task_kind: TaskKind::Notify,
        task_risk: TaskRisk::Low,
        subsystem: None,
        payload: object(&[]),
    });
    let b = ActionQueue::new().push(ActionItem {
        kind: ActionKind::Recovery,
        reason: ActionReason::Symptom("s".into()),
        title: "b".into(),
        description: "".into(),
        requires_consent: false,
        task_kind: TaskKind::Notify,
        task_risk: TaskRisk::Low,
        subsystem: None,
        payload: object(&[]),
    });
    let c = a.merge(b);
    assert_eq!(c.items[0].title, "a");
    assert_eq!(c.items[1].title, "b");
}

#[test]
fn subsystem_for_payload_unknown_kind() {
    let p = object(&[("action", object(&[("kind", text("???"))]))]);
    assert_eq!(subsystem_for_payload(&p), None);
}

#[test]
fn subsystem_for_payload_missing_action() {
    let p = object(&[]);
    assert_eq!(subsystem_for_payload(&p), None);
}

#[test]
fn action_to_task_rejects_empty_id() {
    // Just a sanity check that the helper
    // returns None on bad input.
    let item = ActionItem {
        kind: ActionKind::Recovery,
        reason: ActionReason::Symptom("s".into()),
        title: "t".into(),
        description: "d".into(),
        requires_consent: false,
        task_kind: TaskKind::Notify,
        task_risk: TaskRisk::Low,
        subsystem: None,
        payload: object(&[]),
    };
    let task = action_to_task(&item, &TaskId::new("t1").unwrap(), 0);
    assert!(task.is_some());
}


fn ids(v: &[&str]) -> Vec<String> {
    v.iter().map(|s| s.to_string()).collect()
}

#[test]
fn firing_log_records_and_replaces() {
    let mut log = FiringLog::new();
    assert_eq!(log.get("morning_setup"), None);
    log.record("morning_setup", 1000);
    log.record("evening", 5);
    assert_eq!(log.get("morning_setup"), Some(1000));
    log.record("morning_setup", 70_000);
    assert_eq!(log.get("morning_setup"), Some(70_000));
    assert_eq!(log.get("evening"), Some(5));
}

#[test]
fn time_trigger_does_not_fire_twice_within_a_minute() {
    let mut log = FiringLog::new();
    let first = fire_time_triggers(&ids(&["morning_setup"]), 1000, &mut log);
    let second = fire_time_triggers(&ids(&["morning_setup"]), 30_000, &mut log);
    assert_eq!(first, ids(&["morning_setup"]));
    assert!(second.is_empty());
    assert_eq!(log.get("morning_setup"), Some(1000));
}

#[test]
fn time_trigger_fires_again_after_a_minute() {
    let mut log = FiringLog::new();
    let _ = fire_time_triggers(&ids(&["morning_setup"]), 1000, &mut log);
    assert!(fire_time_triggers(&ids(&["morning_setup"]), 60_999, &mut log).is_empty());
    let again = fire_time_triggers(&ids(&["morning_setup"]), 70_000, &mut log);
    assert_eq!(again, ids(&["morning_setup"]));
    assert_eq!(log.get("morning_setup"), Some(70_000));
}

#[test]
fn time_trigger_fires_each_workflow_once_per_tick() {
    let mut log = FiringLog::new();
    let fired = fire_time_triggers(&ids(&["a", "b", "a"]), 500, &mut log);
    assert_eq!(fired, ids(&["a", "b"]));
}

#[test]
fn time_trigger_with_clock_before_last_fire_waits() {
    let mut log = FiringLog::new();
    log.record("a", 100_000);
    assert!(fire_time_triggers(&ids(&["a"]), 10, &mut log).is_empty());
}

#[test]
fn symptoms_are_planned_once() {
    let mut planned = FiringLog::new();
    let cands = vec![("cpu_overload".to_string(), true), ("disk_full".to_string(), false)];
    let first = select_unplanned(&cands, 1000, &mut planned);
    assert_eq!(first, ids(&["cpu_overload"]));
    let second = select_unplanned(&cands, 2000, &mut planned);
    assert!(second.is_empty());
    assert_eq!(planned.get("cpu_overload"), Some(1000));
    assert_eq!(planned.get("disk_full"), None);
    let later = select_unplanned(&[("disk_full".to_string(), true)], 3000, &mut planned);
    assert_eq!(later, ids(&["disk_full"]));
}

#[test]
fn workflow_tasks_become_review_items() {
    let launch = AgentTask::new("wf.before_meeting.0", TaskKind::Notify, "Before meeting: open notes", "d")
        .unwrap()
        .with_arguments(object(&[("action", object(&[("kind", text("launch_app")), ("app_id", text("notes"))]))]));
    let risky = AgentTask::new("wf.before_meeting.1", TaskKind::Custom, "Before meeting: wait", "d")
        .unwrap()
        .with_risk(TaskRisk::High);
    let q = workflow_items(&[launch, risky], "before_meeting");
    assert_eq!(q.len(), 2);
    let a = &q.items[0];
    assert_eq!(a.kind, ActionKind::Workflow);
    assert_eq!(a.workflow_id(), Some("before_meeting"));
    assert_eq!(a.title, "Before meeting: open notes");
    assert_eq!(a.description, "{\"app_id\":\"notes\",\"kind\":\"launch_app\"}");
    assert_eq!(a.subsystem, Some(Subsystem::App));
    assert!(!a.requires_consent);
    assert_eq!(a.task_risk, TaskRisk::Low);
    let b = &q.items[1];
    assert!(b.requires_consent);
    assert_eq!(b.payload, object(&[]));
    assert_eq!(b.description, "null");
    assert_eq!(b.subsystem, None);
    assert_eq!(q.consent_count(), 1);
}
