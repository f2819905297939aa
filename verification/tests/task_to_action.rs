use aether_agent::agent_core::{AgentTask, TaskId, TaskKind};
use aether_agent::runtime::action::ActionVariant;
use aether_agent::runtime::task_to_action::{task_to_action, TaskToActionError};

fn text(s: &str) -> serde_json::Value {
    serde_json::Value::String(s.to_string())
}

fn object(members: &[(&str, serde_json::Value)]) -> serde_json::Value {
    let mut m = serde_json::Map::new();
    for (k, v) in members {
        m.insert(k.to_string(), v.clone());
    }
    serde_json::Value::Object(m)
}

fn task(kind: TaskKind) -> AgentTask {
    AgentTask::new("t1", kind, "title", "do the thing").expect("valid task")
}

#[test]
fn rejects_empty_session_id() {
    let t = task(TaskKind::Notify);
    let err = task_to_action("", &t).unwrap_err();
    assert_eq!(err, TaskToActionError::EmptySessionId);
}

#[test]
fn notify_maps_to_context_get() {
    let t = task(TaskKind::Notify);
    let action = task_to_action("s1", &t).expect("action");
    assert!(matches!(action.variant, ActionVariant::ContextGet));
}

#[test]
fn restart_service_uses_target() {
    let t = task(TaskKind::RestartService).with_target("aether-agentd");
    let action = task_to_action("s1", &t).expect("action");
    match action.variant {
        ActionVariant::ServiceRestart(p) => assert_eq!(p.service_id, "aether-agentd"),
        other => panic!("expected ServiceRestart, got {other:?}"),
    }
}

#[test]
fn restart_service_reads_arguments_service() {
    let t = task(TaskKind::RestartService)
        .with_arguments(object(&[("service", text("aether-network"))]));
    let action = task_to_action("s1", &t).expect("action");
    match action.variant {
        ActionVariant::ServiceRestart(p) => assert_eq!(p.service_id, "aether-network"),
        other => panic!("expected ServiceRestart, got {other:?}"),
    }
}

#[test]
fn custom_restart_service() {
    let t = task(TaskKind::Custom).with_arguments(object(&[("kind", text("restart_service")), ("service", text("aether-proactive"))]));
    let action = task_to_action("s1", &t).expect("action");
    match action.variant {
        ActionVariant::ServiceRestart(p) => assert_eq!(p.service_id, "aether-proactive"),
        other => panic!("expected ServiceRestart, got {other:?}"),
    }
}

#[test]
fn custom_kill_process_is_unsupported() {
    let t = task(TaskKind::Custom).with_arguments(object(&[("kind", text("kill_process")), ("pid", serde_json::Value::from(42u64))]));
    let err = task_to_action("s1", &t).unwrap_err();
    assert!(matches!(err, TaskToActionError::UnsupportedKind { .. }));
}

#[test]
fn propose_update_is_unsupported() {
    let t = task(TaskKind::ProposeUpdate);
    let err = task_to_action("s1", &t).unwrap_err();
    assert!(matches!(err, TaskToActionError::UnsupportedKind { .. }));
}

#[test]
fn cleanup_drop_page_cache_maps_to_storage_status() {
    let t = task(TaskKind::ProposeCleanup)
        .with_arguments(object(&[("kind", text("drop_page_cache"))]));
    let action = task_to_action("s1", &t).expect("action");
    assert!(matches!(action.variant, ActionVariant::StorageStatus));
}

#[test]
fn custom_restart_app_launches_application() {
    let t = task(TaskKind::Custom).with_arguments(object(&[("kind", text("restart_app")), ("app_id", text("calculator"))]));
    let action = task_to_action("s1", &t).expect("action");
    match action.variant {
        ActionVariant::ApplicationLaunch(p) => assert_eq!(p.application_id, "calculator"),
        other => panic!("expected ApplicationLaunch, got {other:?}"),
    }
}

#[test]
fn action_carries_task_description_as_reason() {
    let t = AgentTask::new("t1", TaskKind::Notify, "title", "disk is full").expect("valid");
    let action = task_to_action("sess", &t).expect("action");
    assert_eq!(action.reason, "disk is full");
    assert_eq!(action.session_id, "sess");
}

#[test]
fn task_id_is_not_required_for_conversion() {
    let _ = TaskId::new("t1");
    let t = task(TaskKind::Notify);
    assert!(task_to_action("s1", &t).is_ok());
}

#[test]
fn blank_session_id_is_refused() {
    let t = task(TaskKind::Notify);
    assert_eq!(task_to_action("  \t", &t).unwrap_err(), TaskToActionError::EmptySessionId);
}

#[test]
fn restart_without_service_names_the_missing_field() {
    let t = task(TaskKind::RestartService);
    let err = task_to_action("s1", &t).unwrap_err();
    assert_eq!(err, TaskToActionError::MissingField { field: "service".to_string() });
    assert_eq!(err.to_string(), "missing required field 'service'");
}

#[test]
fn unknown_cleanup_kind_is_not_wired() {
    let t = task(TaskKind::ProposeCleanup).with_arguments(object(&[("kind", text("defrag"))]));
    let err = task_to_action("s1", &t).unwrap_err();
    assert_eq!(
        err,
        TaskToActionError::UnsupportedKind {
            kind: TaskKind::ProposeCleanup,
            reason: "cleanup kind 'defrag' is not wired yet".to_string()
        }
    );
}

#[test]
fn custom_task_needs_a_kind() {
    let t = task(TaskKind::Custom).with_arguments(object(&[("kind", serde_json::Value::from(3u64))]));
    let err = task_to_action("s1", &t).unwrap_err();
    assert_eq!(err, TaskToActionError::MissingField { field: "kind".to_string() });
}

#[test]
fn empty_target_falls_back_to_arguments() {
    let t = task(TaskKind::RestartService).with_target("").with_arguments(object(&[("service", text("net"))]));
    let action = task_to_action("s1", &t).unwrap();
    match action.variant {
        ActionVariant::ServiceRestart(p) => assert_eq!(p.service_id, "net"),
        other => panic!("expected ServiceRestart, got {other:?}"),
    }
}

#[test]
fn device_control_enable() {
    let t = task(TaskKind::DeviceControl)
        .with_target("wifi-0")
        .with_arguments(object(&[("enable", serde_json::Value::Bool(true))]));
    let action = task_to_action("s1", &t).expect("action");
    match action.variant {
        ActionVariant::DeviceEnable(p) => assert_eq!(p.device_id, "wifi-0"),
        other => panic!("expected DeviceEnable, got {other:?}"),
    }
}

#[test]
fn device_control_disable() {
    let t = task(TaskKind::DeviceControl)
        .with_target("cam-0")
        .with_arguments(object(&[("enable", serde_json::Value::Bool(false))]));
    let action = task_to_action("s1", &t).expect("action");
    assert!(matches!(action.variant, ActionVariant::DeviceDisable(_)));
}

#[test]
fn power_reboot() {
    let t = task(TaskKind::PowerControl)
        .with_arguments(object(&[("operation", text("reboot")), ("delay_ms", serde_json::Value::from(100u64))]));
    let action = task_to_action("s1", &t).expect("action");
    match action.variant {
        ActionVariant::SystemReboot(p) => assert_eq!(p.delay_ms, 100),
        other => panic!("expected SystemReboot, got {other:?}"),
    }
}

#[test]
fn device_control_defaults_to_enable_and_reads_device_id() {
    let t = task(TaskKind::DeviceControl).with_arguments(object(&[("device_id", text("bt-0"))]));
    match task_to_action("s1", &t).unwrap().variant {
        ActionVariant::DeviceEnable(p) => assert_eq!(p.device_id, "bt-0"),
        other => panic!("expected DeviceEnable, got {other:?}"),
    }
    let missing = task(TaskKind::DeviceControl);
    assert_eq!(
        task_to_action("s1", &missing).unwrap_err(),
        TaskToActionError::MissingField { field: "device_id".to_string() }
    );
}

#[test]
fn display_control_caps_the_level() {
    let t = task(TaskKind::DisplayControl)
        .with_target("hdmi-0")
        .with_arguments(object(&[("level", serde_json::Value::from(250u64))]));
    match task_to_action("s1", &t).unwrap().variant {
        ActionVariant::DisplaySetBrightness(p) => {
            assert_eq!(p.display_id, "hdmi-0");
            assert_eq!(p.level, 100);
        }
        other => panic!("expected DisplaySetBrightness, got {other:?}"),
    }
    let no_level = task(TaskKind::DisplayControl).with_target("hdmi-0");
    assert_eq!(
        task_to_action("s1", &no_level).unwrap_err(),
        TaskToActionError::MissingField { field: "level".to_string() }
    );
}

#[test]
fn power_control_operations() {
    let shutdown = task(TaskKind::PowerControl).with_arguments(object(&[("kind", text("shutdown"))]));
    match task_to_action("s1", &shutdown).unwrap().variant {
        ActionVariant::SystemShutdown(p) => assert_eq!(p.delay_ms, 0),
        other => panic!("expected SystemShutdown, got {other:?}"),
    }
    let suspend = task(TaskKind::PowerControl).with_arguments(object(&[("operation", text("hibernate"))]));
    assert!(matches!(task_to_action("s1", &suspend).unwrap().variant, ActionVariant::SystemSuspend));
    let default = task(TaskKind::PowerControl);
    assert!(matches!(task_to_action("s1", &default).unwrap().variant, ActionVariant::SystemReboot(_)));
    let bad = task(TaskKind::PowerControl).with_arguments(object(&[("operation", text("explode"))]));
    assert_eq!(
        task_to_action("s1", &bad).unwrap_err(),
        TaskToActionError::InvalidArguments { message: "unknown power operation 'explode'".to_string() }
    );
}

#[test]
fn security_control_reloads_policy_only() {
    let t = task(TaskKind::SecurityControl);
    assert!(matches!(task_to_action("s1", &t).unwrap().variant, ActionVariant::PolicyReload));
    let other = task(TaskKind::SecurityControl).with_arguments(object(&[("operation", text("lockdown"))]));
    assert_eq!(
        task_to_action("s1", &other).unwrap_err(),
        TaskToActionError::UnsupportedKind {
            kind: TaskKind::SecurityControl,
            reason: "security operation 'lockdown' is not wired yet".to_string(),
        }
    );
}
