use aether_agent::runtime::action::{Action, ActionRisk, ActionVariant};
use aether_agent::runtime::planner::{Plan, PlanStep, Planner};
use aether_agent::runtime::recovery::RecoveryPolicy;

fn object(members: &[(&str, serde_json::Value)]) -> serde_json::Value {
    let mut m = serde_json::Map::new();
    for (k, v) in members {
        m.insert(k.to_string(), v.clone());
    }
    serde_json::Value::Object(m)
}

fn text(s: &str) -> serde_json::Value {
    serde_json::Value::String(s.to_string())
}

fn step(index: u32, name: &str, deps: Vec<u32>, risk: &str) -> PlanStep {
    PlanStep {
        step_index: index,
        action_name: name.to_string(),
        parameters: object(&[]),
        depends_on: deps,
        required_capabilities: vec![],
        risk_level: risk.to_string(),
        optional: false,
        recovery: RecoveryPolicy::default(),
    }
}

#[test]
fn single_step_plan() {
    let p = Planner::new();
    let plan = p.plan_single(
        "s1",
        "application.launch",
        object(&[("app", text("calc"))]),
        vec!["application.launch".to_string()],
        "medium",
    );
    assert_eq!(plan.step_count(), 1);
    assert_eq!(plan.estimated_risk, "medium");
    assert!(!plan.requires_approval);
}

#[test]
fn high_risk_plan_requires_approval() {
    let p = Planner::new();
    let plan = p.plan_single(
        "s1",
        "file.delete",
        object(&[("path", text("/tmp/x"))]),
        vec!["file.delete".to_string()],
        "high",
    );
    assert!(plan.requires_approval);
}

#[test]
fn plan_validate_catches_forward_dependency() {
    let p = Planner::new();
    let plan = p.plan_multi("s1", "test", vec![step(0, "a", vec![1], "low"), step(1, "b", vec![], "low")]);
    assert!(plan.validate().is_err());
}

#[test]
fn plan_validate_passes_valid() {
    let p = Planner::new();
    let plan = p.plan_multi("s1", "test", vec![step(0, "a", vec![], "low"), step(1, "b", vec![0], "low")]);
    assert!(plan.validate().is_ok());
}

#[test]
fn plan_step_recovery_defaults_to_no_retry() {
    let p = Planner::new();
    let plan = p.plan_single("s1", "system.status", object(&[]), vec![], "low");
    assert_eq!(plan.steps[0].recovery.max_retries, 0);
}

#[test]
fn plan_step_with_recovery_attaches_policy() {
    let p = Planner::new();
    let plan = p.plan_single_with_recovery(
        "s1",
        "network.status",
        object(&[]),
        vec![],
        "low",
        RecoveryPolicy::transient_default(),
    );
    assert_eq!(plan.steps[0].recovery.max_retries, 3);
    assert_eq!(plan.steps[0].recovery.timeout_ms, Some(2_000));
}

#[test]
fn plan_validate_reports_first_forward_dependency() {
    let p = Planner::new();
    let plan = p.plan_multi(
        "s1",
        "test",
        vec![step(0, "a", vec![], "low"), step(1, "b", vec![0, 1, 5], "low"), step(2, "c", vec![7], "low")],
    );
    assert_eq!(plan.validate(), Err("Step 1 depends on future step 1".to_string()));
}

#[test]
fn plan_risk_is_the_greatest_name_as_text() {
    let p = Planner::new();
    let plan = p.plan_multi("s1", "mixed", vec![step(0, "a", vec![], "high"), step(1, "b", vec![], "critical")]);
    assert_eq!(plan.estimated_risk, "high");
    assert!(plan.requires_approval);
    // Names compare as text: "low" sorts after "high".
    let plan = p.plan_multi("s1", "mixed", vec![step(0, "a", vec![], "high"), step(1, "b", vec![], "low")]);
    assert_eq!(plan.estimated_risk, "low");
    assert!(!plan.requires_approval);
}

#[test]
fn empty_plan_is_low_risk() {
    let p = Planner::new();
    let plan = p.plan_multi("s1", "nothing", vec![]);
    assert!(plan.is_empty());
    assert_eq!(plan.estimated_risk, "low");
    assert!(!plan.requires_approval);
    assert!(plan.validate().is_ok());
}

#[test]
fn add_step_recomputes_risk() {
    let mut plan = Plan::new("s1", "grow");
    plan.add_step(step(0, "a", vec![], "medium"));
    assert_eq!(plan.estimated_risk, "medium");
    plan.add_step(step(1, "b", vec![0], "critical").with_recovery(RecoveryPolicy::transient_default()));
    assert_eq!(plan.estimated_risk, "medium");
    assert_eq!(plan.step_count(), 2);
    assert_eq!(plan.steps[1].recovery.max_retries, 3);
}

#[test]
fn plan_for_action_uses_the_action_fields() {
    let p = Planner::new();
    let action = Action::new("s9", ActionVariant::SystemStatus, "check");
    let plan = p.plan_for_action(&action, text("SystemStatus"), RecoveryPolicy::default());
    assert_eq!(plan.session_id, "s9");
    assert_eq!(plan.intent_summary, "system.status");
    assert_eq!(plan.steps[0].action_name, "system.status");
    assert_eq!(plan.steps[0].required_capabilities, vec!["system.status".to_string()]);
    assert_eq!(plan.steps[0].risk_level, "low");
    assert_eq!(action.risk_level, ActionRisk::Low);
}
