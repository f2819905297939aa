use aether_agent::runtime::action::{Action, ActionVariant};
use aether_agent::runtime::tool::{ToolId, ToolRisk};
use aether_agent::runtime::tools::{all_tool_definitions, register_all_tools, routing_for, SERVICE_SURFACE, SERVICE_SYSTEM_CORE};

fn all_action_names() -> Vec<&'static str> {
    vec![
        // We use a stub Action just to call action_name() without
        // constructing a full params. Easiest is to match the
        // variant and return the constant string from the match
        // table in action.rs. We duplicate the table here so the
        // sync test catches a divergence between action.rs and
        // tools.rs.
        "application.launch",
        "application.close",
        "window.list",
        "window.focus",
        "window.minimize",
        "window.maximize",
        "window.close",
        "file.list",
        "file.read",
        "file.create",
        "file.write",
        "file.search",
        "file.rename",
        "file.move",
        "file.delete",
        "process.list",
        "process.inspect",
        "network.status",
        "network.interfaces",
        "system.status",
        "system.info",
        "system.resources",
        "system.uptime",
        "service.restart",
        "storage.status",
        "context.get",
        "display.list",
        "display.set_brightness",
        "display.set_resolution",
        "device.list",
        "device.inspect",
        "device.enable",
        "device.disable",
        "system.reboot",
        "system.shutdown",
        "system.suspend",
        "credential.seal",
        "credential.unseal",
        "policy.reload",
    ]
}

#[test]
fn register_all_tools_returns_nonempty() {
    let reg = register_all_tools();
    assert!(reg.count() > 30, "expected 30+ tools, got {}", reg.count());
}

#[test]
fn every_registered_tool_has_a_routing_hint() {
    let reg = register_all_tools();
    for tool in reg.list() {
        let out = &tool.output_schema;
        assert!(
            out.get("service").is_some(),
            "tool {} has no service in output_schema",
            tool.id.0
        );
        assert!(
            out.get("command").is_some(),
            "tool {} has no command in output_schema",
            tool.id.0
        );
    }
}

#[test]
fn routing_for_known_tool() {
    let reg = register_all_tools();
    let routing = routing_for(&reg, &ToolId::new("system.status"));
    match routing {
        Some((service, command)) => {
            assert_eq!(service, SERVICE_SYSTEM_CORE);
            assert_eq!(command, "status");
        }
        None => panic!("system.status should be registered"),
    }
}

#[test]
fn routing_for_window_tools_uses_surface_service() {
    let reg = register_all_tools();
    let routing = routing_for(&reg, &ToolId::new("window.list"));
    match routing {
        Some((service, _command)) => {
            assert_eq!(service, SERVICE_SURFACE);
        }
        None => panic!("window.list should be registered"),
    }
}

#[test]
fn routing_for_unknown_tool_is_none() {
    let reg = register_all_tools();
    assert!(routing_for(&reg, &ToolId::new("agent.execute_shell")).is_none());
}

#[test]
fn tools_match_action_variants() {
    // Every action_name() must be a registered tool id.
    // Build the set of action names by constructing a stub
    // Action for each variant and reading action_name().
    let _reg = register_all_tools();
    let names = all_action_names();
    let mut registry = register_all_tools();
    // The duplicate-register check in `register_all_tools`
    // would already have panicked if there were dups, but
    // re-assert here for explicit safety.
    for tool in all_tool_definitions() {
        assert!(
            registry.register(tool.clone()).is_ok() || registry.get(&tool.id).is_some(),
            "duplicate tool id {}",
            tool.id.0
        );
    }
    for name in &names {
        assert!(
            registry.get(&ToolId::new(*name)).is_some(),
            "action {name} has no matching tool registered",
        );
    }
    // Drop the local registry to silence unused warnings.
    let _ = registry;
}

#[test]
fn high_and_critical_actions_require_confirmation() {
    let reg = register_all_tools();
    for id in [
        "file.delete",
        "display.set_resolution",
        "device.enable",
        "device.disable",
        "system.reboot",
        "system.shutdown",
        "system.suspend",
        "credential.seal",
        "credential.unseal",
        "policy.reload",
    ] {
        match reg.get(&ToolId::new(id)) {
            Some(tool) => {
                assert!(
                    tool.requires_confirmation,
                    "{id} should require confirmation but does not",
                );
            }
            None => panic!("{id} should be registered"),
        }
    }
}

#[test]
fn critical_tools_listed() {
    let reg = register_all_tools();
    let critical: Vec<_> = reg
        .list()
        .into_iter()
        .filter(|t| t.risk_level == ToolRisk::Critical)
        .map(|t| t.id.0.clone())
        .collect();
    assert!(critical.contains(&"system.reboot".to_string()));
    assert!(critical.contains(&"system.shutdown".to_string()));
}

#[test]
fn file_delete_is_high_risk_in_registry() {
    let reg = register_all_tools();
    match reg.get(&ToolId::new("file.delete")) {
        Some(t) => {
            assert_eq!(t.risk_level, ToolRisk::High);
            assert!(t.required_capabilities.contains(&"file.delete".to_string()));
        }
        None => panic!("file.delete should be registered"),
    }
}

#[test]
fn credential_tools_are_high_risk() {
    let reg = register_all_tools();
    for id in ["credential.seal", "credential.unseal"] {
        match reg.get(&ToolId::new(id)) {
            Some(t) => assert_eq!(t.risk_level, ToolRisk::High),
            None => panic!("{id} should be registered"),
        }
    }
}

#[test]
fn action_action_name_matches_tool_id() {
    // The sync test above is the structural version; this is
    // the behavioural version that goes through
    // action.action_name() with a real Action.
    let reg = register_all_tools();
    let a = Action::new("s1", ActionVariant::SystemStatus, "check");
    assert!(reg.get(&ToolId::new(a.action_name())).is_some());
}

#[test]
fn no_privilege_escalation_in_schemas() {
    let reg = register_all_tools();
    for tool in reg.list() {
        if let Some(required) = tool.input_schema.get("required") {
            if let Some(fields) = required.as_array() {
                for f in fields {
                    let name = f.as_str().unwrap_or_default();
                    assert!(
                        !["root", "admin", "allow", "skip_policy", "trusted"].contains(&name),
                        "tool {} declares privileged field '{}' in schema",
                        tool.id.0,
                        name,
                    );
                }
            }
        }
    }
}

#[test]
fn window_tools_route_to_the_surface_with_their_command() {
    let reg = register_all_tools();
    for id in ["window.focus", "window.minimize", "window.maximize", "window.close"] {
        match routing_for(&reg, &ToolId::new(id)) {
            Some((service, command)) => {
                assert_eq!(service, SERVICE_SURFACE);
                assert_eq!(command, id);
            }
            None => panic!("{id} should be routed"),
        }
    }
}

#[test]
fn every_action_tool_mirrors_the_action_risk() {
    let reg = register_all_tools();
    let cases = [
        (ActionVariant::SystemStatus, ToolRisk::Low),
        (ActionVariant::SystemSuspend, ToolRisk::High),
        (ActionVariant::PolicyReload, ToolRisk::Medium),
        (ActionVariant::DisplayList, ToolRisk::Low),
    ];
    for (variant, risk) in cases {
        let a = Action::new("s", variant, "r");
        let tool = reg.get(&ToolId::new(a.action_name())).unwrap();
        assert_eq!(tool.risk_level, risk);
    }
}

#[test]
fn registry_holds_every_tool_once_in_table_order() {
    let reg = register_all_tools();
    assert_eq!(reg.count(), all_tool_definitions().len());
    let listed: Vec<String> = reg.list().iter().map(|t| t.id.0.clone()).collect();
    let names: Vec<String> = all_action_names().iter().map(|s| s.to_string()).collect();
    assert_eq!(listed, names);
    let t = reg.get(&ToolId::new("file.write")).unwrap();
    assert_eq!(t.side_effects, vec!["file.write".to_string()]);
    assert_eq!(t.timeout_ms, 5_000);
    assert!(t.validate_input(&serde_json::Value::Object(serde_json::Map::new())).is_err());
}
