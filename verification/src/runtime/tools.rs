//! The built-in tool table: one tool for every action the agent can take,
//! with its input schema, risk, side effects, time limit, whether the user
//! must confirm it, and the service command it is routed to.
use vstd::prelude::*;

use crate::json::{
    value_field, value_text,
    empty_object, json_field, json_is_object, json_items, json_text, object_insert, object_with, string_value,
};
use crate::runtime::action::{spec_action_name, spec_action_risk, ActionRisk, ActionVariant};
use crate::runtime::executor::{spec_execution_step, StepView};
use crate::runtime::tool::{required_fields_schema, requires_fields, ToolDefinition, ToolId, ToolRegistry, ToolRisk};
use crate::text::{strings_view, strs_view};

verus! {

/// The system-core service, which serves almost every command.
pub const SERVICE_SYSTEM_CORE: &'static str = "aether-system-core";

/// The surface server, which serves the window commands.
pub const SERVICE_SURFACE: &'static str = "aether-surface";

/// The number of tools in the table.
pub const TOOL_COUNT: usize = 39;

/// One row of the tool table: the id (also the capability the tool
/// needs), the description, the command, the required input fields, the
/// risk, the side effects, the time limit in milliseconds, whether the
/// user must confirm each use, and whether the surface server serves it.
pub type ToolRow = (Seq<char>, Seq<char>, Seq<char>, Seq<Seq<char>>, ToolRisk, Seq<Seq<char>>, u64, bool, bool);

/// The tool table, row by row, in registration order.
pub open spec fn spec_tool_row(i: int) -> ToolRow {
    if i == 0 {
        ("application.launch"@, "Launch a registered application."@, "app.launch"@, seq!["application_id"@], ToolRisk::Medium, seq!["process.start"@, "window.create"@], 15000, false, false)
    }     else if i == 1 {
        ("application.close"@, "Close a running application."@, "app.close"@, seq!["application_id"@], ToolRisk::Medium, seq!["process.stop"@, "window.close"@], 10000, false, false)
    }     else if i == 2 {
        ("window.list"@, "List all open windows."@, "window.list"@, seq![], ToolRisk::Low, seq![], 5000, false, true)
    }     else if i == 3 {
        ("window.focus"@, "Focus a window by id or by app."@, "window.focus"@, seq![], ToolRisk::Low, seq!["window.focus"@], 5000, false, true)
    }     else if i == 4 {
        ("window.minimize"@, "Minimize a window."@, "window.minimize"@, seq!["window_id"@], ToolRisk::Low, seq!["window.minimize"@], 5000, false, true)
    }     else if i == 5 {
        ("window.maximize"@, "Maximize a window."@, "window.maximize"@, seq!["window_id"@], ToolRisk::Low, seq!["window.maximize"@], 5000, false, true)
    }     else if i == 6 {
        ("window.close"@, "Close a window."@, "window.close"@, seq![], ToolRisk::Medium, seq!["window.close"@], 5000, false, true)
    }     else if i == 7 {
        ("file.list"@, "List files in a directory."@, "file.list"@, seq!["path"@], ToolRisk::Low, seq![], 5000, false, false)
    }     else if i == 8 {
        ("file.read"@, "Read a file's contents."@, "file.read"@, seq!["path"@], ToolRisk::Low, seq![], 5000, false, false)
    }     else if i == 9 {
        ("file.create"@, "Create a new file."@, "file.create"@, seq!["path"@], ToolRisk::Medium, seq!["file.create"@], 5000, false, false)
    }     else if i == 10 {
        ("file.write"@, "Overwrite a file."@, "file.write"@, seq!["path"@, "content"@], ToolRisk::Medium, seq!["file.write"@], 5000, false, false)
    }     else if i == 11 {
        ("file.search"@, "Search for files matching a query."@, "file.search"@, seq!["query"@], ToolRisk::Low, seq![], 10000, false, false)
    }     else if i == 12 {
        ("file.rename"@, "Rename a file."@, "file.rename"@, seq!["from"@, "to"@], ToolRisk::Medium, seq!["file.rename"@], 5000, false, false)
    }     else if i == 13 {
        ("file.move"@, "Move a file."@, "file.move"@, seq!["from"@, "to"@], ToolRisk::Medium, seq!["file.move"@], 5000, false, false)
    }     else if i == 14 {
        ("file.delete"@, "Delete a file. High risk: cannot be undone."@, "file.delete"@, seq!["path"@], ToolRisk::High, seq!["file.delete"@], 5000, true, false)
    }     else if i == 15 {
        ("process.list"@, "List running processes."@, "process.list"@, seq![], ToolRisk::Low, seq![], 5000, false, false)
    }     else if i == 16 {
        ("process.inspect"@, "Inspect a process by pid or name."@, "process.inspect"@, seq![], ToolRisk::Low, seq![], 5000, false, false)
    }     else if i == 17 {
        ("network.status"@, "Get network connectivity status."@, "network.status"@, seq![], ToolRisk::Low, seq![], 5000, false, false)
    }     else if i == 18 {
        ("network.interfaces"@, "List network interfaces."@, "network.interfaces"@, seq![], ToolRisk::Low, seq![], 5000, false, false)
    }     else if i == 19 {
        ("system.status"@, "Get system status."@, "status"@, seq![], ToolRisk::Low, seq![], 5000, false, false)
    }     else if i == 20 {
        ("system.info"@, "Get system information."@, "system.info"@, seq![], ToolRisk::Low, seq![], 5000, false, false)
    }     else if i == 21 {
        ("system.resources"@, "Get current resource usage."@, "system.resources"@, seq![], ToolRisk::Low, seq![], 5000, false, false)
    }     else if i == 22 {
        ("system.uptime"@, "Get system uptime."@, "system.uptime"@, seq![], ToolRisk::Low, seq![], 5000, false, false)
    }     else if i == 23 {
        ("service.restart"@, "Restart an Aether service unit."@, "service.restart"@, seq!["service_id"@], ToolRisk::Medium, seq!["service.restart"@], 30000, true, false)
    }     else if i == 24 {
        ("storage.status"@, "Get storage status."@, "storage.status"@, seq![], ToolRisk::Low, seq![], 5000, false, false)
    }     else if i == 25 {
        ("context.get"@, "Get a context snapshot."@, "context.get"@, seq![], ToolRisk::Low, seq![], 5000, false, false)
    }     else if i == 26 {
        ("display.list"@, "List connected displays."@, "display.list"@, seq![], ToolRisk::Low, seq![], 5000, false, false)
    }     else if i == 27 {
        ("display.set_brightness"@, "Set display brightness (0-100)."@, "display.set_brightness"@, seq!["display_id"@, "level"@], ToolRisk::Low, seq!["display.brightness"@], 5000, false, false)
    }     else if i == 28 {
        ("display.set_resolution"@, "Set display resolution."@, "display.set_resolution"@, seq!["display_id"@, "width"@, "height"@], ToolRisk::Medium, seq!["display.resolution"@], 5000, true, false)
    }     else if i == 29 {
        ("device.list"@, "List hardware devices."@, "device.list"@, seq![], ToolRisk::Low, seq![], 5000, false, false)
    }     else if i == 30 {
        ("device.inspect"@, "Inspect a hardware device."@, "device.inspect"@, seq!["device_id"@], ToolRisk::Low, seq![], 5000, false, false)
    }     else if i == 31 {
        ("device.enable"@, "Enable a disabled device."@, "device.enable"@, seq!["device_id"@], ToolRisk::Medium, seq!["device.state"@], 5000, true, false)
    }     else if i == 32 {
        ("device.disable"@, "Disable a device."@, "device.disable"@, seq!["device_id"@], ToolRisk::Medium, seq!["device.state"@], 5000, true, false)
    }     else if i == 33 {
        ("system.reboot"@, "Reboot the system. Interrupts every user."@, "system.reboot"@, seq!["delay_ms"@], ToolRisk::Critical, seq!["system.reboot"@, "session.terminate"@], 60000, true, false)
    }     else if i == 34 {
        ("system.shutdown"@, "Shut the system down."@, "system.shutdown"@, seq!["delay_ms"@], ToolRisk::Critical, seq!["system.shutdown"@, "session.terminate"@], 60000, true, false)
    }     else if i == 35 {
        ("system.suspend"@, "Suspend the system."@, "system.suspend"@, seq![], ToolRisk::High, seq!["system.suspend"@], 30000, true, false)
    }     else if i == 36 {
        ("credential.seal"@, "Seal a credential for long-term storage."@, "credentials.seal"@, seq!["name"@, "plaintext"@], ToolRisk::High, seq!["credential.seal"@], 5000, true, false)
    }     else if i == 37 {
        ("credential.unseal"@, "Unseal a previously sealed credential."@, "credentials.unseal"@, seq!["name"@], ToolRisk::High, seq!["credential.unseal"@], 5000, true, false)
    } else {
        ("policy.reload"@, "Reload the active policy bundle."@, "policy.reload"@, seq![], ToolRisk::Medium, seq!["policy.reload"@], 10000, true, false)
    }
}

/// The service a row is routed to.
pub open spec fn service_of(on_surface: bool) -> Seq<char> {
    if on_surface {
        SERVICE_SURFACE@
    } else {
        SERVICE_SYSTEM_CORE@
    }
}

/// The routing an output schema names: its `service` and `command`
/// members, when both are strings.
pub open spec fn spec_routing(out: serde_json::Value) -> Option<(Seq<char>, Seq<char>)> {
    match (json_field(out, "service"@), json_field(out, "command"@)) {
        (Some(s), Some(c)) => match (json_text(s), json_text(c)) {
            (Some(a), Some(b)) => Some((a, b)),
            _ => None,
        },
        _ => None,
    }
}

/// The tool definition `t` is the one row `row` describes.
pub open spec fn defines_row(t: ToolDefinition, row: ToolRow) -> bool {
    &&& t.id.0@ == row.0
    &&& t.name@ == row.0
    &&& t.description@ == row.1
    &&& requires_fields(t.input_schema, row.3)
    &&& t.risk_level == row.4
    &&& strings_view(t.required_capabilities@) == seq![row.0]
    &&& strings_view(t.side_effects@) == row.5
    &&& t.timeout_ms == row.6
    &&& t.requires_confirmation == row.7
    &&& spec_routing(t.output_schema) == Some((service_of(row.8), row.2))
}

/// The tool risk that mirrors an action risk.
pub open spec fn tool_risk_of(r: ActionRisk) -> ToolRisk {
    match r {
        ActionRisk::Low => ToolRisk::Low,
        ActionRisk::Medium => ToolRisk::Medium,
        ActionRisk::High => ToolRisk::High,
        ActionRisk::Critical => ToolRisk::Critical,
    }
}

/// A row of the table as static data.
struct ToolEntry {
    id: &'static str,
    description: &'static str,
    command: &'static str,
    required: &'static [&'static str],
    risk: ToolRisk,
    side_effects: &'static [&'static str],
    timeout_ms: u64,
    requires_confirmation: bool,
    on_surface: bool,
}

spec fn entry_row(e: ToolEntry) -> ToolRow {
    (
        e.id@,
        e.description@,
        e.command@,
        strs_view(e.required@),
        e.risk,
        strs_view(e.side_effects@),
        e.timeout_ms,
        e.requires_confirmation,
        e.on_surface,
    )
}

/// Row `k` of the table.
#[verifier::rlimit(50)]
fn tool_entry(k: usize) -> (e: ToolEntry)
    requires
        k < TOOL_COUNT,
    ensures
        entry_row(e) == spec_tool_row(k as int),
{
    match k {
        0 => ToolEntry {
            id: "application.launch",
            description: "Launch a registered application.",
            command: "app.launch",
            required: &["application_id"],
            risk: ToolRisk::Medium,
            side_effects: &["process.start", "window.create"],
            timeout_ms: 15000,
            requires_confirmation: false,
            on_surface: false,
        },
        1 => ToolEntry {
            id: "application.close",
            description: "Close a running application.",
            command: "app.close",
            required: &["application_id"],
            risk: ToolRisk::Medium,
            side_effects: &["process.stop", "window.close"],
            timeout_ms: 10000,
            requires_confirmation: false,
            on_surface: false,
        },
        2 => ToolEntry {
            id: "window.list",
            description: "List all open windows.",
            command: "window.list",
            required: &[],
            risk: ToolRisk::Low,
            side_effects: &[],
            timeout_ms: 5000,
            requires_confirmation: false,
            on_surface: true,
        },
        3 => ToolEntry {
            id: "window.focus",
            description: "Focus a window by id or by app.",
            command: "window.focus",
            required: &[],
            risk: ToolRisk::Low,
            side_effects: &["window.focus"],
            timeout_ms: 5000,
            requires_confirmation: false,
            on_surface: true,
        },
        4 => ToolEntry {
            id: "window.minimize",
            description: "Minimize a window.",
            command: "window.minimize",
            required: &["window_id"],
            risk: ToolRisk::Low,
            side_effects: &["window.minimize"],
            timeout_ms: 5000,
            requires_confirmation: false,
            on_surface: true,
        },
        5 => ToolEntry {
            id: "window.maximize",
            description: "Maximize a window.",
            command: "window.maximize",
            required: &["window_id"],
            risk: ToolRisk::Low,
            side_effects: &["window.maximize"],
            timeout_ms: 5000,
            requires_confirmation: false,
            on_surface: true,
        },
        6 => ToolEntry {
            id: "window.close",
            description: "Close a window.",
            command: "window.close",
            required: &[],
            risk: ToolRisk::Medium,
            side_effects: &["window.close"],
            timeout_ms: 5000,
            requires_confirmation: false,
            on_surface: true,
        },
        7 => ToolEntry {
            id: "file.list",
            description: "List files in a directory.",
            command: "file.list",
            required: &["path"],
            risk: ToolRisk::Low,
            side_effects: &[],
            timeout_ms: 5000,
            requires_confirmation: false,
            on_surface: false,
        },
        8 => ToolEntry {
            id: "file.read",
            description: "Read a file's contents.",
            command: "file.read",
            required: &["path"],
            risk: ToolRisk::Low,
            side_effects: &[],
            timeout_ms: 5000,
            requires_confirmation: false,
            on_surface: false,
        },
        9 => ToolEntry {
            id: "file.create",
            description: "Create a new file.",
            command: "file.create",
            required: &["path"],
            risk: ToolRisk::Medium,
            side_effects: &["file.create"],
            timeout_ms: 5000,
            requires_confirmation: false,
            on_surface: false,
        },
        10 => ToolEntry {
            id: "file.write",
            description: "Overwrite a file.",
            command: "file.write",
            required: &["path", "content"],
            risk: ToolRisk::Medium,
            side_effects: &["file.write"],
            timeout_ms: 5000,
            requires_confirmation: false,
            on_surface: false,
        },
        11 => ToolEntry {
            id: "file.search",
            description: "Search for files matching a query.",
            command: "file.search",
            required: &["query"],
            risk: ToolRisk::Low,
            side_effects: &[],
            timeout_ms: 10000,
            requires_confirmation: false,
            on_surface: false,
        },
        12 => ToolEntry {
            id: "file.rename",
            description: "Rename a file.",
            command: "file.rename",
            required: &["from", "to"],
            risk: ToolRisk::Medium,
            side_effects: &["file.rename"],
            timeout_ms: 5000,
            requires_confirmation: false,
            on_surface: false,
        },
        13 => ToolEntry {
            id: "file.move",
            description: "Move a file.",
            command: "file.move",
            required: &["from", "to"],
            risk: ToolRisk::Medium,
            side_effects: &["file.move"],
            timeout_ms: 5000,
            requires_confirmation: false,
            on_surface: false,
        },
        14 => ToolEntry {
            id: "file.delete",
            description: "Delete a file. High risk: cannot be undone.",
            command: "file.delete",
            required: &["path"],
            risk: ToolRisk::High,
            side_effects: &["file.delete"],
            timeout_ms: 5000,
            requires_confirmation: true,
            on_surface: false,
        },
        15 => ToolEntry {
            id: "process.list",
            description: "List running processes.",
            command: "process.list",
            required: &[],
            risk: ToolRisk::Low,
            side_effects: &[],
            timeout_ms: 5000,
            requires_confirmation: false,
            on_surface: false,
        },
        16 => ToolEntry {
            id: "process.inspect",
            description: "Inspect a process by pid or name.",
            command: "process.inspect",
            required: &[],
            risk: ToolRisk::Low,
            side_effects: &[],
            timeout_ms: 5000,
            requires_confirmation: false,
            on_surface: false,
        },
        17 => ToolEntry {
            id: "network.status",
            description: "Get network connectivity status.",
            command: "network.status",
            required: &[],
            risk: ToolRisk::Low,
            side_effects: &[],
            timeout_ms: 5000,
            requires_confirmation: false,
            on_surface: false,
        },
        18 => ToolEntry {
            id: "network.interfaces",
            description: "List network interfaces.",
            command: "network.interfaces",
            required: &[],
            risk: ToolRisk::Low,
            side_effects: &[],
            timeout_ms: 5000,
            requires_confirmation: false,
            on_surface: false,
        },
        19 => ToolEntry {
            id: "system.status",
            description: "Get system status.",
            command: "status",
            required: &[],
            risk: ToolRisk::Low,
            side_effects: &[],
            timeout_ms: 5000,
            requires_confirmation: false,
            on_surface: false,
        },
        20 => ToolEntry {
            id: "system.info",
            description: "Get system information.",
            command: "system.info",
            required: &[],
            risk: ToolRisk::Low,
            side_effects: &[],
            timeout_ms: 5000,
            requires_confirmation: false,
            on_surface: false,
        },
        21 => ToolEntry {
            id: "system.resources",
            description: "Get current resource usage.",
            command: "system.resources",
            required: &[],
            risk: ToolRisk::Low,
            side_effects: &[],
            timeout_ms: 5000,
            requires_confirmation: false,
            on_surface: false,
        },
        22 => ToolEntry {
            id: "system.uptime",
            description: "Get system uptime.",
            command: "system.uptime",
            required: &[],
            risk: ToolRisk::Low,
            side_effects: &[],
            timeout_ms: 5000,
            requires_confirmation: false,
            on_surface: false,
        },
        23 => ToolEntry {
            id: "service.restart",
            description: "Restart an Aether service unit.",
            command: "service.restart",
            required: &["service_id"],
            risk: ToolRisk::Medium,
            side_effects: &["service.restart"],
            timeout_ms: 30000,
            requires_confirmation: true,
            on_surface: false,
        },
        24 => ToolEntry {
            id: "storage.status",
            description: "Get storage status.",
            command: "storage.status",
            required: &[],
            risk: ToolRisk::Low,
            side_effects: &[],
            timeout_ms: 5000,
            requires_confirmation: false,
            on_surface: false,
        },
        25 => ToolEntry {
            id: "context.get",
            description: "Get a context snapshot.",
            command: "context.get",
            required: &[],
            risk: ToolRisk::Low,
            side_effects: &[],
            timeout_ms: 5000,
            requires_confirmation: false,
            on_surface: false,
        },
        26 => ToolEntry {
            id: "display.list",
            description: "List connected displays.",
            command: "display.list",
            required: &[],
            risk: ToolRisk::Low,
            side_effects: &[],
            timeout_ms: 5000,
            requires_confirmation: false,
            on_surface: false,
        },
        27 => ToolEntry {
            id: "display.set_brightness",
            description: "Set display brightness (0-100).",
            command: "display.set_brightness",
            required: &["display_id", "level"],
            risk: ToolRisk::Low,
            side_effects: &["display.brightness"],
            timeout_ms: 5000,
            requires_confirmation: false,
            on_surface: false,
        },
        28 => ToolEntry {
            id: "display.set_resolution",
            description: "Set display resolution.",
            command: "display.set_resolution",
            required: &["display_id", "width", "height"],
            risk: ToolRisk::Medium,
            side_effects: &["display.resolution"],
            timeout_ms: 5000,
            requires_confirmation: true,
            on_surface: false,
        },
        29 => ToolEntry {
            id: "device.list",
            description: "List hardware devices.",
            command: "device.list",
            required: &[],
            risk: ToolRisk::Low,
            side_effects: &[],
            timeout_ms: 5000,
            requires_confirmation: false,
            on_surface: false,
        },
        30 => ToolEntry {
            id: "device.inspect",
            description: "Inspect a hardware device.",
            command: "device.inspect",
            required: &["device_id"],
            risk: ToolRisk::Low,
            side_effects: &[],
            timeout_ms: 5000,
            requires_confirmation: false,
            on_surface: false,
        },
        31 => ToolEntry {
            id: "device.enable",
            description: "Enable a disabled device.",
            command: "device.enable",
            required: &["device_id"],
            risk: ToolRisk::Medium,
            side_effects: &["device.state"],
            timeout_ms: 5000,
            requires_confirmation: true,
            on_surface: false,
        },
        32 => ToolEntry {
            id: "device.disable",
            description: "Disable a device.",
            command: "device.disable",
            required: &["device_id"],
            risk: ToolRisk::Medium,
            side_effects: &["device.state"],
            timeout_ms: 5000,
            requires_confirmation: true,
            on_surface: false,
        },
        33 => ToolEntry {
            id: "system.reboot",
            description: "Reboot the system. Interrupts every user.",
            command: "system.reboot",
            required: &["delay_ms"],
            risk: ToolRisk::Critical,
            side_effects: &["system.reboot", "session.terminate"],
            timeout_ms: 60000,
            requires_confirmation: true,
            on_surface: false,
        },
        34 => ToolEntry {
            id: "system.shutdown",
            description: "Shut the system down.",
            command: "system.shutdown",
            required: &["delay_ms"],
            risk: ToolRisk::Critical,
            side_effects: &["system.shutdown", "session.terminate"],
            timeout_ms: 60000,
            requires_confirmation: true,
            on_surface: false,
        },
        35 => ToolEntry {
            id: "system.suspend",
            description: "Suspend the system.",
            command: "system.suspend",
            required: &[],
            risk: ToolRisk::High,
            side_effects: &["system.suspend"],
            timeout_ms: 30000,
            requires_confirmation: true,
            on_surface: false,
        },
        36 => ToolEntry {
            id: "credential.seal",
            description: "Seal a credential for long-term storage.",
            command: "credentials.seal",
            required: &["name", "plaintext"],
            risk: ToolRisk::High,
            side_effects: &["credential.seal"],
            timeout_ms: 5000,
            requires_confirmation: true,
            on_surface: false,
        },
        37 => ToolEntry {
            id: "credential.unseal",
            description: "Unseal a previously sealed credential.",
            command: "credentials.unseal",
            required: &["name"],
            risk: ToolRisk::High,
            side_effects: &["credential.unseal"],
            timeout_ms: 5000,
            requires_confirmation: true,
            on_surface: false,
        },
        _ => ToolEntry {
            id: "policy.reload",
            description: "Reload the active policy bundle.",
            command: "policy.reload",
            required: &[],
            risk: ToolRisk::Medium,
            side_effects: &["policy.reload"],
            timeout_ms: 10000,
            requires_confirmation: true,
            on_surface: false,
        },
    }
}

/// The output schema `{"service": service, "command": command}`, which
/// routes a tool to a service command.
fn routing_schema(service: &str, command: &str) -> (r: serde_json::Value)
    ensures
        json_is_object(r),
        spec_routing(r) == Some((service@, command@)),
{
    proof {
        reveal_strlit("service");
        reveal_strlit("command");
        assert("service"@[0] != "command"@[0]);
    }
    let o = object_with("service", string_value(service));
    object_insert(o, "command", string_value(command))
}

/// A tool with the given id (also its display name), description, input
/// schema, risk, capability, side effects, time limit and confirmation,
/// routed to `command` on the system-core service.
fn tool(
    id: &str,
    description: &str,
    command: &str,
    input_schema: serde_json::Value,
    risk: ToolRisk,
    capability: &str,
    side_effects: &[&str],
    timeout_ms: u64,
    requires_confirmation: bool,
) -> (t: ToolDefinition)
    ensures
        t.id.0@ == id@,
        t.name@ == id@,
        t.description@ == description@,
        t.input_schema == input_schema,
        t.risk_level == risk,
        strings_view(t.required_capabilities@) == seq![capability@],
        strings_view(t.side_effects@) == strs_view(side_effects@),
        t.timeout_ms == timeout_ms,
        t.requires_confirmation == requires_confirmation,
        spec_routing(t.output_schema) == Some((SERVICE_SYSTEM_CORE@, command@)),
{
    let t0 = ToolDefinition::new(id, id, description);
    proof {
        assert(strings_view(t0.required_capabilities@) =~= Seq::<Seq<char>>::empty());
    }
    let mut t = t0.with_input_schema(input_schema).with_risk_level(risk).with_capability(capability).with_timeout(
        timeout_ms,
    );
    let ghost base = t;
    proof {
        assert(strings_view(t.side_effects@) =~= strs_view(side_effects@.take(0)));
    }
    let mut i: usize = 0;
    while i < side_effects.len()
        invariant
            i <= side_effects@.len(),
            t == (ToolDefinition { side_effects: t.side_effects, ..base }),
            strings_view(t.side_effects@) == strs_view(side_effects@.take(i as int)),
        decreases side_effects@.len() - i,
    {
        t = t.with_side_effect(side_effects[i]);
        proof {
            assert(side_effects@.take(i + 1) =~= side_effects@.take(i as int).push(side_effects@[i as int]));
            assert(strs_view(side_effects@.take(i + 1)) =~= strs_view(side_effects@.take(i as int)).push(
                side_effects@[i as int]@,
            ));
        }
        i += 1;
    }
    proof {
        assert(side_effects@.take(i as int) =~= side_effects@);
    }
    if requires_confirmation {
        t = t.with_confirmation();
    }
    t.with_output_schema(routing_schema(SERVICE_SYSTEM_CORE, command))
}

/// The tool a row of the table describes.
fn build_tool(e: &ToolEntry) -> (t: ToolDefinition)
    ensures
        defines_row(t, entry_row(*e)),
{
    let schema = if e.required.len() == 0 {
        empty_object()
    } else {
        required_fields_schema(e.required)
    };
    let t = tool(
        e.id,
        e.description,
        e.command,
        schema,
        e.risk,
        e.id,
        e.side_effects,
        e.timeout_ms,
        e.requires_confirmation,
    );
    if e.on_surface {
        t.with_output_schema(routing_schema(SERVICE_SURFACE, e.command))
    } else {
        t
    }
}

/// Every tool of the table, in table order.
pub fn all_tool_definitions() -> (r: Vec<ToolDefinition>)
    ensures
        r@.len() == TOOL_COUNT,
        forall|i: int| 0 <= i < TOOL_COUNT ==> defines_row(#[trigger] r@[i], spec_tool_row(i)),
{
    let mut v: Vec<ToolDefinition> = Vec::new();
    let mut k: usize = 0;
    while k < TOOL_COUNT
        invariant
            k <= TOOL_COUNT,
            v@.len() == k,
            forall|i: int| 0 <= i < k ==> defines_row(#[trigger] v@[i], spec_tool_row(i)),
        decreases TOOL_COUNT - k,
    {
        let e = tool_entry(k);
        v.push(build_tool(&e));
        k += 1;
    }
    v
}

/// The position of the row with id `s` in the table (the count of rows
/// when no row has it).
pub open spec fn tool_index(s: Seq<char>) -> int {
    if s == "application.launch"@ {
        0
    }     else if s == "application.close"@ {
        1
    }     else if s == "window.list"@ {
        2
    }     else if s == "window.focus"@ {
        3
    }     else if s == "window.minimize"@ {
        4
    }     else if s == "window.maximize"@ {
        5
    }     else if s == "window.close"@ {
        6
    }     else if s == "file.list"@ {
        7
    }     else if s == "file.read"@ {
        8
    }     else if s == "file.create"@ {
        9
    }     else if s == "file.write"@ {
        10
    }     else if s == "file.search"@ {
        11
    }     else if s == "file.rename"@ {
        12
    }     else if s == "file.move"@ {
        13
    }     else if s == "file.delete"@ {
        14
    }     else if s == "process.list"@ {
        15
    }     else if s == "process.inspect"@ {
        16
    }     else if s == "network.status"@ {
        17
    }     else if s == "network.interfaces"@ {
        18
    }     else if s == "system.status"@ {
        19
    }     else if s == "system.info"@ {
        20
    }     else if s == "system.resources"@ {
        21
    }     else if s == "system.uptime"@ {
        22
    }     else if s == "service.restart"@ {
        23
    }     else if s == "storage.status"@ {
        24
    }     else if s == "context.get"@ {
        25
    }     else if s == "display.list"@ {
        26
    }     else if s == "display.set_brightness"@ {
        27
    }     else if s == "display.set_resolution"@ {
        28
    }     else if s == "device.list"@ {
        29
    }     else if s == "device.inspect"@ {
        30
    }     else if s == "device.enable"@ {
        31
    }     else if s == "device.disable"@ {
        32
    }     else if s == "system.reboot"@ {
        33
    }     else if s == "system.shutdown"@ {
        34
    }     else if s == "system.suspend"@ {
        35
    }     else if s == "credential.seal"@ {
        36
    }     else if s == "credential.unseal"@ {
        37
    }     else if s == "policy.reload"@ {
        38
    } else {
        TOOL_COUNT as int
    }
}

/// Each row sits at the position of its id.
pub proof fn lemma_tool_index(i: int)
    requires
        0 <= i < TOOL_COUNT,
    ensures
        tool_index(spec_tool_row(i).0) == i,
{
    reveal_strlit("application.launch");
    reveal_strlit("application.close");
    reveal_strlit("window.list");
    reveal_strlit("window.focus");
    reveal_strlit("window.minimize");
    reveal_strlit("window.maximize");
    reveal_strlit("window.close");
    reveal_strlit("file.list");
    reveal_strlit("file.read");
    reveal_strlit("file.create");
    reveal_strlit("file.write");
    reveal_strlit("file.search");
    reveal_strlit("file.rename");
    reveal_strlit("file.move");
    reveal_strlit("file.delete");
    reveal_strlit("process.list");
    reveal_strlit("process.inspect");
    reveal_strlit("network.status");
    reveal_strlit("network.interfaces");
    reveal_strlit("system.status");
    reveal_strlit("system.info");
    reveal_strlit("system.resources");
    reveal_strlit("system.uptime");
    reveal_strlit("service.restart");
    reveal_strlit("storage.status");
    reveal_strlit("context.get");
    reveal_strlit("display.list");
    reveal_strlit("display.set_brightness");
    reveal_strlit("display.set_resolution");
    reveal_strlit("device.list");
    reveal_strlit("device.inspect");
    reveal_strlit("device.enable");
    reveal_strlit("device.disable");
    reveal_strlit("system.reboot");
    reveal_strlit("system.shutdown");
    reveal_strlit("system.suspend");
    reveal_strlit("credential.seal");
    reveal_strlit("credential.unseal");
    reveal_strlit("policy.reload");
    assert("application.launch"@[0] != "network.interfaces"@[0]);
    assert("application.close"@[0] != "credential.unseal"@[0]);
    assert("window.list"@[0] != "file.create"@[0]);
    assert("window.list"@[0] != "file.search"@[0]);
    assert("window.list"@[0] != "file.rename"@[0]);
    assert("window.list"@[0] != "file.delete"@[0]);
    assert("window.list"@[0] != "system.info"@[0]);
    assert("window.list"@[0] != "context.get"@[0]);
    assert("window.list"@[0] != "device.list"@[0]);
    assert("window.focus"@[7] != "window.close"@[7]);
    assert("window.focus"@[0] != "process.list"@[0]);
    assert("window.focus"@[0] != "display.list"@[0]);
    assert("window.minimize"@[8] != "window.maximize"@[8]);
    assert("window.minimize"@[0] != "process.inspect"@[0]);
    assert("window.minimize"@[0] != "service.restart"@[0]);
    assert("window.minimize"@[0] != "system.shutdown"@[0]);
    assert("window.minimize"@[0] != "credential.seal"@[0]);
    assert("window.maximize"@[0] != "process.inspect"@[0]);
    assert("window.maximize"@[0] != "service.restart"@[0]);
    assert("window.maximize"@[0] != "system.shutdown"@[0]);
    assert("window.maximize"@[0] != "credential.seal"@[0]);
    assert("window.close"@[0] != "process.list"@[0]);
    assert("window.close"@[0] != "display.list"@[0]);
    assert("file.list"@[5] != "file.read"@[5]);
    assert("file.list"@[5] != "file.move"@[5]);
    assert("file.read"@[5] != "file.move"@[5]);
    assert("file.create"@[5] != "file.search"@[5]);
    assert("file.create"@[5] != "file.rename"@[5]);
    assert("file.create"@[5] != "file.delete"@[5]);
    assert("file.create"@[0] != "system.info"@[0]);
    assert("file.create"@[0] != "context.get"@[0]);
    assert("file.create"@[0] != "device.list"@[0]);
    assert("file.search"@[5] != "file.rename"@[5]);
    assert("file.search"@[5] != "file.delete"@[5]);
    assert("file.search"@[0] != "system.info"@[0]);
    assert("file.search"@[0] != "context.get"@[0]);
    assert("file.search"@[0] != "device.list"@[0]);
    assert("file.rename"@[5] != "file.delete"@[5]);
    assert("file.rename"@[0] != "system.info"@[0]);
    assert("file.rename"@[0] != "context.get"@[0]);
    assert("file.rename"@[0] != "device.list"@[0]);
    assert("file.delete"@[0] != "system.info"@[0]);
    assert("file.delete"@[0] != "context.get"@[0]);
    assert("file.delete"@[0] != "device.list"@[0]);
    assert("process.list"@[0] != "display.list"@[0]);
    assert("process.inspect"@[0] != "service.restart"@[0]);
    assert("process.inspect"@[0] != "system.shutdown"@[0]);
    assert("process.inspect"@[0] != "credential.seal"@[0]);
    assert("network.status"@[0] != "storage.status"@[0]);
    assert("network.status"@[0] != "device.inspect"@[0]);
    assert("network.status"@[0] != "device.disable"@[0]);
    assert("network.status"@[0] != "system.suspend"@[0]);
    assert("system.status"@[7] != "system.uptime"@[7]);
    assert("system.status"@[0] != "device.enable"@[0]);
    assert("system.status"@[7] != "system.reboot"@[7]);
    assert("system.status"@[0] != "policy.reload"@[0]);
    assert("system.info"@[0] != "context.get"@[0]);
    assert("system.info"@[0] != "device.list"@[0]);
    assert("system.uptime"@[0] != "device.enable"@[0]);
    assert("system.uptime"@[7] != "system.reboot"@[7]);
    assert("system.uptime"@[0] != "policy.reload"@[0]);
    assert("service.restart"@[1] != "system.shutdown"@[1]);
    assert("service.restart"@[0] != "credential.seal"@[0]);
    assert("storage.status"@[0] != "device.inspect"@[0]);
    assert("storage.status"@[0] != "device.disable"@[0]);
    assert("storage.status"@[1] != "system.suspend"@[1]);
    assert("context.get"@[0] != "device.list"@[0]);
    assert("display.set_brightness"@[12] != "display.set_resolution"@[12]);
    assert("device.inspect"@[7] != "device.disable"@[7]);
    assert("device.inspect"@[0] != "system.suspend"@[0]);
    assert("device.enable"@[0] != "system.reboot"@[0]);
    assert("device.enable"@[0] != "policy.reload"@[0]);
    assert("device.disable"@[0] != "system.suspend"@[0]);
    assert("system.reboot"@[0] != "policy.reload"@[0]);
    assert("system.shutdown"@[0] != "credential.seal"@[0]);
    if i == 0 {
        assert(spec_tool_row(0).0 == "application.launch"@);
        assert(tool_index("application.launch"@) == 0);
    }     else if i == 1 {
        assert(spec_tool_row(1).0 == "application.close"@);
        assert(tool_index("application.close"@) == 1);
    }     else if i == 2 {
        assert(spec_tool_row(2).0 == "window.list"@);
        assert(tool_index("window.list"@) == 2);
    }     else if i == 3 {
        assert(spec_tool_row(3).0 == "window.focus"@);
        assert(tool_index("window.focus"@) == 3);
    }     else if i == 4 {
        assert(spec_tool_row(4).0 == "window.minimize"@);
        assert(tool_index("window.minimize"@) == 4);
    }     else if i == 5 {
        assert(spec_tool_row(5).0 == "window.maximize"@);
        assert(tool_index("window.maximize"@) == 5);
    }     else if i == 6 {
        assert(spec_tool_row(6).0 == "window.close"@);
        assert(tool_index("window.close"@) == 6);
    }     else if i == 7 {
        assert(spec_tool_row(7).0 == "file.list"@);
        assert(tool_index("file.list"@) == 7);
    }     else if i == 8 {
        assert(spec_tool_row(8).0 == "file.read"@);
        assert(tool_index("file.read"@) == 8);
    }     else if i == 9 {
        assert(spec_tool_row(9).0 == "file.create"@);
        assert(tool_index("file.create"@) == 9);
    }     else if i == 10 {
        assert(spec_tool_row(10).0 == "file.write"@);
        assert(tool_index("file.write"@) == 10);
    }     else if i == 11 {
        assert(spec_tool_row(11).0 == "file.search"@);
        assert(tool_index("file.search"@) == 11);
    }     else if i == 12 {
        assert(spec_tool_row(12).0 == "file.rename"@);
        assert(tool_index("file.rename"@) == 12);
    }     else if i == 13 {
        assert(spec_tool_row(13).0 == "file.move"@);
        assert(tool_index("file.move"@) == 13);
    }     else if i == 14 {
        assert(spec_tool_row(14).0 == "file.delete"@);
        assert(tool_index("file.delete"@) == 14);
    }     else if i == 15 {
        assert(spec_tool_row(15).0 == "process.list"@);
        assert(tool_index("process.list"@) == 15);
    }     else if i == 16 {
        assert(spec_tool_row(16).0 == "process.inspect"@);
        assert(tool_index("process.inspect"@) == 16);
    }     else if i == 17 {
        assert(spec_tool_row(17).0 == "network.status"@);
        assert(tool_index("network.status"@) == 17);
    }     else if i == 18 {
        assert(spec_tool_row(18).0 == "network.interfaces"@);
        assert(tool_index("network.interfaces"@) == 18);
    }     else if i == 19 {
        assert(spec_tool_row(19).0 == "system.status"@);
        assert(tool_index("system.status"@) == 19);
    }     else if i == 20 {
        assert(spec_tool_row(20).0 == "system.info"@);
        assert(tool_index("system.info"@) == 20);
    }     else if i == 21 {
        assert(spec_tool_row(21).0 == "system.resources"@);
        assert(tool_index("system.resources"@) == 21);
    }     else if i == 22 {
        assert(spec_tool_row(22).0 == "system.uptime"@);
        assert(tool_index("system.uptime"@) == 22);
    }     else if i == 23 {
        assert(spec_tool_row(23).0 == "service.restart"@);
        assert(tool_index("service.restart"@) == 23);
    }     else if i == 24 {
        assert(spec_tool_row(24).0 == "storage.status"@);
        assert(tool_index("storage.status"@) == 24);
    }     else if i == 25 {
        assert(spec_tool_row(25).0 == "context.get"@);
        assert(tool_index("context.get"@) == 25);
    }     else if i == 26 {
        assert(spec_tool_row(26).0 == "display.list"@);
        assert(tool_index("display.list"@) == 26);
    }     else if i == 27 {
        assert(spec_tool_row(27).0 == "display.set_brightness"@);
        assert(tool_index("display.set_brightness"@) == 27);
    }     else if i == 28 {
        assert(spec_tool_row(28).0 == "display.set_resolution"@);
        assert(tool_index("display.set_resolution"@) == 28);
    }     else if i == 29 {
        assert(spec_tool_row(29).0 == "device.list"@);
        assert(tool_index("device.list"@) == 29);
    }     else if i == 30 {
        assert(spec_tool_row(30).0 == "device.inspect"@);
        assert(tool_index("device.inspect"@) == 30);
    }     else if i == 31 {
        assert(spec_tool_row(31).0 == "device.enable"@);
        assert(tool_index("device.enable"@) == 31);
    }     else if i == 32 {
        assert(spec_tool_row(32).0 == "device.disable"@);
        assert(tool_index("device.disable"@) == 32);
    }     else if i == 33 {
        assert(spec_tool_row(33).0 == "system.reboot"@);
        assert(tool_index("system.reboot"@) == 33);
    }     else if i == 34 {
        assert(spec_tool_row(34).0 == "system.shutdown"@);
        assert(tool_index("system.shutdown"@) == 34);
    }     else if i == 35 {
        assert(spec_tool_row(35).0 == "system.suspend"@);
        assert(tool_index("system.suspend"@) == 35);
    }     else if i == 36 {
        assert(spec_tool_row(36).0 == "credential.seal"@);
        assert(tool_index("credential.seal"@) == 36);
    }     else if i == 37 {
        assert(spec_tool_row(37).0 == "credential.unseal"@);
        assert(tool_index("credential.unseal"@) == 37);
    }     else if i == 38 {
        assert(spec_tool_row(38).0 == "policy.reload"@);
        assert(tool_index("policy.reload"@) == 38);
    }
}

/// No two rows of the table share an id.
pub proof fn lemma_tool_ids_distinct()
    ensures
        forall|i: int, j: int| 0 <= i < j < TOOL_COUNT ==> spec_tool_row(i).0 != spec_tool_row(j).0,
{
    assert forall|i: int, j: int| 0 <= i < j < TOOL_COUNT implies spec_tool_row(i).0 != spec_tool_row(j).0 by {
        lemma_tool_index(i);
        lemma_tool_index(j);
    }
}

/// A registry holding every tool of the table, in table order.
pub fn register_all_tools() -> (r: ToolRegistry)
    ensures
        r.wf(),
        r.spec_tools().len() == TOOL_COUNT,
        forall|i: int| 0 <= i < TOOL_COUNT ==> defines_row(#[trigger] r.spec_tools()[i], spec_tool_row(i)),
{
    let mut rest = all_tool_definitions();
    proof {
        lemma_tool_ids_distinct();
    }
    let mut reg = ToolRegistry::new();
    let mut k: usize = 0;
    while k < TOOL_COUNT
        invariant
            k <= TOOL_COUNT,
            reg.wf(),
            reg.spec_tools().len() == k,
            forall|i: int| 0 <= i < k ==> defines_row(#[trigger] reg.spec_tools()[i], spec_tool_row(i)),
            rest@.len() == TOOL_COUNT - k,
            forall|j: int| 0 <= j < rest@.len() ==> defines_row(#[trigger] rest@[j], spec_tool_row(k + j)),
            forall|i: int, j: int| 0 <= i < j < TOOL_COUNT ==> spec_tool_row(i).0 != spec_tool_row(j).0,
        decreases TOOL_COUNT - k,
    {
        let ghost prev = rest@;
        let t = rest.remove(0);
        assert(defines_row(prev[0], spec_tool_row(k + 0)));
        proof {
            if reg.spec_has(t.id.0@) {
                let i = choose|i: int| 0 <= i < reg.spec_tools().len() && reg.spec_tools()[i].id.0@ == t.id.0@;
                assert(defines_row(reg.spec_tools()[i], spec_tool_row(i)));
            }
        }
        let res = reg.register(t);
        assert forall|j: int| 0 <= j < rest@.len() implies defines_row(#[trigger] rest@[j], spec_tool_row(k + 1 + j)) by {
            assert(rest@[j] == prev[j + 1]);
            assert(defines_row(prev[j + 1], spec_tool_row(k + (j + 1))));
        }
        k += 1;
    }
    reg
}

/// The routing of the tool with id `id` among `tools`, when there is one
/// and its output schema names a service and a command.
pub open spec fn spec_routing_for(tools: Seq<ToolDefinition>, id: Seq<char>) -> Option<(Seq<char>, Seq<char>)> {
    if exists|i: int| 0 <= i < tools.len() && tools[i].id.0@ == id {
        let i = choose|i: int| 0 <= i < tools.len() && tools[i].id.0@ == id;
        spec_routing(tools[i].output_schema)
    } else {
        None
    }
}

/// The service and command the tool with this id is routed to; `None`
/// for an unknown tool or one whose output schema names no routing.
pub fn routing_for(registry: &ToolRegistry, id: &ToolId) -> (r: Option<(String, String)>)
    requires
        registry.wf(),
    ensures
        match r {
            Some((s, c)) => spec_routing_for(registry.spec_tools(), id.0@) == Some((s@, c@)),
            None => spec_routing_for(registry.spec_tools(), id.0@) is None,
        },
{
    let tool = match registry.get(id) {
        Some(t) => t,
        None => {
            return None;
        },
    };
    proof {
        let tools = registry.spec_tools();
        let k = choose|k: int| 0 <= k < tools.len() && tools[k] == *tool;
        let c = choose|i: int| 0 <= i < tools.len() && tools[i].id.0@ == id.0@;
        assert(tools[k].id.0@ == id.0@);
        assert(c == k);
    }
    let service = match value_field(&tool.output_schema, "service") {
        Some(v) => match value_text(&v) {
            Some(s) => s,
            None => {
                return None;
            },
        },
        None => {
            return None;
        },
    };
    let command = match value_field(&tool.output_schema, "command") {
        Some(v) => match value_text(&v) {
            Some(s) => s,
            None => {
                return None;
            },
        },
        None => {
            return None;
        },
    };
    Some((service, command))
}

/// Every action the agent can take has a tool of the same name in the
/// registry of every tool, and that tool's risk mirrors the action's risk.
pub proof fn law_every_action_has_a_tool(reg: ToolRegistry, v: ActionVariant)
    requires
        reg.spec_tools().len() == TOOL_COUNT,
        forall|i: int| 0 <= i < TOOL_COUNT ==> defines_row(#[trigger] reg.spec_tools()[i], spec_tool_row(i)),
    ensures
        reg.spec_has(spec_action_name(v)),
        forall|i: int|
            0 <= i < reg.spec_tools().len() && reg.spec_tools()[i].id.0@ == spec_action_name(v) ==> reg.spec_tools()[i].risk_level
                == tool_risk_of(spec_action_risk(v)),
{
    let k = tool_index(spec_action_name(v));
    lemma_action_tool_row(v);
    assert(defines_row(reg.spec_tools()[k], spec_tool_row(k)));
    assert forall|i: int|
        0 <= i < reg.spec_tools().len() && reg.spec_tools()[i].id.0@ == spec_action_name(v) implies reg.spec_tools()[i].risk_level
            == tool_risk_of(spec_action_risk(v)) by {
        assert(defines_row(reg.spec_tools()[i], spec_tool_row(i)));
        lemma_tool_index(i);
    }
}

/// The row of the tool named like an action: it exists and its risk
/// mirrors the action's.
proof fn lemma_action_tool_row(v: ActionVariant)
    ensures
        0 <= tool_index(spec_action_name(v)) < TOOL_COUNT,
        spec_tool_row(tool_index(spec_action_name(v))).0 == spec_action_name(v),
        spec_tool_row(tool_index(spec_action_name(v))).4 == tool_risk_of(spec_action_risk(v)),
{
    match v {
        ActionVariant::ApplicationLaunch(_) => {
            lemma_tool_index(0);
            assert(spec_tool_row(0).0 == "application.launch"@);
        },
        ActionVariant::ApplicationClose(_) => {
            lemma_tool_index(1);
            assert(spec_tool_row(1).0 == "application.close"@);
        },
        ActionVariant::WindowList => {
            lemma_tool_index(2);
            assert(spec_tool_row(2).0 == "window.list"@);
        },
        ActionVariant::WindowFocus(_) => {
            lemma_tool_index(3);
            assert(spec_tool_row(3).0 == "window.focus"@);
        },
        ActionVariant::WindowMinimize(_) => {
            lemma_tool_index(4);
            assert(spec_tool_row(4).0 == "window.minimize"@);
        },
        ActionVariant::WindowMaximize(_) => {
            lemma_tool_index(5);
            assert(spec_tool_row(5).0 == "window.maximize"@);
        },
        ActionVariant::WindowClose(_) => {
            lemma_tool_index(6);
            assert(spec_tool_row(6).0 == "window.close"@);
        },
        ActionVariant::FileList(_) => {
            lemma_tool_index(7);
            assert(spec_tool_row(7).0 == "file.list"@);
        },
        ActionVariant::FileRead(_) => {
            lemma_tool_index(8);
            assert(spec_tool_row(8).0 == "file.read"@);
        },
        ActionVariant::FileCreate(_) => {
            lemma_tool_index(9);
            assert(spec_tool_row(9).0 == "file.create"@);
        },
        ActionVariant::FileWrite(_) => {
            lemma_tool_index(10);
            assert(spec_tool_row(10).0 == "file.write"@);
        },
        ActionVariant::FileSearch(_) => {
            lemma_tool_index(11);
            assert(spec_tool_row(11).0 == "file.search"@);
        },
        ActionVariant::FileRename(_) => {
            lemma_tool_index(12);
            assert(spec_tool_row(12).0 == "file.rename"@);
        },
        ActionVariant::FileMove(_) => {
            lemma_tool_index(13);
            assert(spec_tool_row(13).0 == "file.move"@);
        },
        ActionVariant::FileDelete(_) => {
            lemma_tool_index(14);
            assert(spec_tool_row(14).0 == "file.delete"@);
        },
        ActionVariant::ProcessList => {
            lemma_tool_index(15);
            assert(spec_tool_row(15).0 == "process.list"@);
        },
        ActionVariant::ProcessInspect(_) => {
            lemma_tool_index(16);
            assert(spec_tool_row(16).0 == "process.inspect"@);
        },
        ActionVariant::NetworkStatus => {
            lemma_tool_index(17);
            assert(spec_tool_row(17).0 == "network.status"@);
        },
        ActionVariant::NetworkInterfaces => {
            lemma_tool_index(18);
            assert(spec_tool_row(18).0 == "network.interfaces"@);
        },
        ActionVariant::SystemStatus => {
            lemma_tool_index(19);
            assert(spec_tool_row(19).0 == "system.status"@);
        },
        ActionVariant::SystemInfo => {
            lemma_tool_index(20);
            assert(spec_tool_row(20).0 == "system.info"@);
        },
        ActionVariant::SystemResources => {
            lemma_tool_index(21);
            assert(spec_tool_row(21).0 == "system.resources"@);
        },
        ActionVariant::SystemUptime => {
            lemma_tool_index(22);
            assert(spec_tool_row(22).0 == "system.uptime"@);
        },
        ActionVariant::ServiceRestart(_) => {
            lemma_tool_index(23);
            assert(spec_tool_row(23).0 == "service.restart"@);
        },
        ActionVariant::StorageStatus => {
            lemma_tool_index(24);
            assert(spec_tool_row(24).0 == "storage.status"@);
        },
        ActionVariant::ContextGet => {
            lemma_tool_index(25);
            assert(spec_tool_row(25).0 == "context.get"@);
        },
        ActionVariant::DisplayList => {
            lemma_tool_index(26);
            assert(spec_tool_row(26).0 == "display.list"@);
        },
        ActionVariant::DisplaySetBrightness(_) => {
            lemma_tool_index(27);
            assert(spec_tool_row(27).0 == "display.set_brightness"@);
        },
        ActionVariant::DisplaySetResolution(_) => {
            lemma_tool_index(28);
            assert(spec_tool_row(28).0 == "display.set_resolution"@);
        },
        ActionVariant::DeviceList => {
            lemma_tool_index(29);
            assert(spec_tool_row(29).0 == "device.list"@);
        },
        ActionVariant::DeviceInspect(_) => {
            lemma_tool_index(30);
            assert(spec_tool_row(30).0 == "device.inspect"@);
        },
        ActionVariant::DeviceEnable(_) => {
            lemma_tool_index(31);
            assert(spec_tool_row(31).0 == "device.enable"@);
        },
        ActionVariant::DeviceDisable(_) => {
            lemma_tool_index(32);
            assert(spec_tool_row(32).0 == "device.disable"@);
        },
        ActionVariant::SystemReboot(_) => {
            lemma_tool_index(33);
            assert(spec_tool_row(33).0 == "system.reboot"@);
        },
        ActionVariant::SystemShutdown(_) => {
            lemma_tool_index(34);
            assert(spec_tool_row(34).0 == "system.shutdown"@);
        },
        ActionVariant::SystemSuspend => {
            lemma_tool_index(35);
            assert(spec_tool_row(35).0 == "system.suspend"@);
        },
        ActionVariant::CredentialSeal(_) => {
            lemma_tool_index(36);
            assert(spec_tool_row(36).0 == "credential.seal"@);
        },
        ActionVariant::CredentialUnseal(_) => {
            lemma_tool_index(37);
            assert(spec_tool_row(37).0 == "credential.unseal"@);
        },
        ActionVariant::PolicyReload => {
            lemma_tool_index(38);
            assert(spec_tool_row(38).0 == "policy.reload"@);
        },
    }
}

/// Every tool of high or critical risk needs the user's confirmation.
pub proof fn law_high_risk_tools_need_confirmation(i: int)
    requires
        0 <= i < TOOL_COUNT,
        spec_tool_row(i).4 == ToolRisk::High || spec_tool_row(i).4 == ToolRisk::Critical,
    ensures
        spec_tool_row(i).7,
{
}

/// The tool table and the executor agree on routing: an action the
/// executor sends to the system core goes to the system-core service with
/// the command its tool names, and an action it sends to the surface server
/// has a tool the surface server serves.
pub proof fn law_tools_agree_with_executor(v: ActionVariant)
    ensures
        spec_execution_step(v) matches Ok(StepView::Control { service_id, command, .. }) ==> {
            &&& service_id == SERVICE_SYSTEM_CORE@
            &&& spec_tool_row(tool_index(spec_action_name(v))).2 == command
            &&& !spec_tool_row(tool_index(spec_action_name(v))).8
        },
        spec_execution_step(v) matches Ok(StepView::Surface { .. }) ==> spec_tool_row(
            tool_index(spec_action_name(v)),
        ).8,
{
    match v {
        ActionVariant::ApplicationLaunch(_) => {
            lemma_tool_index(0);
            assert(spec_tool_row(0).0 == "application.launch"@);
        },
        ActionVariant::ApplicationClose(_) => {
            lemma_tool_index(1);
            assert(spec_tool_row(1).0 == "application.close"@);
        },
        ActionVariant::WindowList => {
            lemma_tool_index(2);
            assert(spec_tool_row(2).0 == "window.list"@);
        },
        ActionVariant::WindowFocus(_) => {
            lemma_tool_index(3);
            assert(spec_tool_row(3).0 == "window.focus"@);
        },
        ActionVariant::WindowMinimize(_) => {
            lemma_tool_index(4);
            assert(spec_tool_row(4).0 == "window.minimize"@);
        },
        ActionVariant::WindowMaximize(_) => {
            lemma_tool_index(5);
            assert(spec_tool_row(5).0 == "window.maximize"@);
        },
        ActionVariant::WindowClose(_) => {
            lemma_tool_index(6);
            assert(spec_tool_row(6).0 == "window.close"@);
        },
        ActionVariant::FileList(_) => {
            lemma_tool_index(7);
            assert(spec_tool_row(7).0 == "file.list"@);
        },
        ActionVariant::FileRead(_) => {
            lemma_tool_index(8);
            assert(spec_tool_row(8).0 == "file.read"@);
        },
        ActionVariant::FileCreate(_) => {
            lemma_tool_index(9);
            assert(spec_tool_row(9).0 == "file.create"@);
        },
        ActionVariant::FileWrite(_) => {
            lemma_tool_index(10);
            assert(spec_tool_row(10).0 == "file.write"@);
        },
        ActionVariant::FileSearch(_) => {
            lemma_tool_index(11);
            assert(spec_tool_row(11).0 == "file.search"@);
        },
        ActionVariant::FileRename(_) => {
            lemma_tool_index(12);
            assert(spec_tool_row(12).0 == "file.rename"@);
        },
        ActionVariant::FileMove(_) => {
            lemma_tool_index(13);
            assert(spec_tool_row(13).0 == "file.move"@);
        },
        ActionVariant::FileDelete(_) => {
            lemma_tool_index(14);
            assert(spec_tool_row(14).0 == "file.delete"@);
        },
        ActionVariant::ProcessList => {
            lemma_tool_index(15);
            assert(spec_tool_row(15).0 == "process.list"@);
        },
        ActionVariant::ProcessInspect(_) => {
            lemma_tool_index(16);
            assert(spec_tool_row(16).0 == "process.inspect"@);
        },
        ActionVariant::NetworkStatus => {
            lemma_tool_index(17);
            assert(spec_tool_row(17).0 == "network.status"@);
        },
        ActionVariant::NetworkInterfaces => {
            lemma_tool_index(18);
            assert(spec_tool_row(18).0 == "network.interfaces"@);
        },
        ActionVariant::SystemStatus => {
            lemma_tool_index(19);
            assert(spec_tool_row(19).0 == "system.status"@);
        },
        ActionVariant::SystemInfo => {
            lemma_tool_index(20);
            assert(spec_tool_row(20).0 == "system.info"@);
        },
        ActionVariant::SystemResources => {
            lemma_tool_index(21);
            assert(spec_tool_row(21).0 == "system.resources"@);
        },
        ActionVariant::SystemUptime => {
            lemma_tool_index(22);
            assert(spec_tool_row(22).0 == "system.uptime"@);
        },
        ActionVariant::ServiceRestart(_) => {
            lemma_tool_index(23);
            assert(spec_tool_row(23).0 == "service.restart"@);
        },
        ActionVariant::StorageStatus => {
            lemma_tool_index(24);
            assert(spec_tool_row(24).0 == "storage.status"@);
        },
        ActionVariant::ContextGet => {
            lemma_tool_index(25);
            assert(spec_tool_row(25).0 == "context.get"@);
        },
        ActionVariant::DisplayList => {
            lemma_tool_index(26);
            assert(spec_tool_row(26).0 == "display.list"@);
        },
        ActionVariant::DisplaySetBrightness(_) => {
            lemma_tool_index(27);
            assert(spec_tool_row(27).0 == "display.set_brightness"@);
        },
        ActionVariant::DisplaySetResolution(_) => {
            lemma_tool_index(28);
            assert(spec_tool_row(28).0 == "display.set_resolution"@);
        },
        ActionVariant::DeviceList => {
            lemma_tool_index(29);
            assert(spec_tool_row(29).0 == "device.list"@);
        },
        ActionVariant::DeviceInspect(_) => {
            lemma_tool_index(30);
            assert(spec_tool_row(30).0 == "device.inspect"@);
        },
        ActionVariant::DeviceEnable(_) => {
            lemma_tool_index(31);
            assert(spec_tool_row(31).0 == "device.enable"@);
        },
        ActionVariant::DeviceDisable(_) => {
            lemma_tool_index(32);
            assert(spec_tool_row(32).0 == "device.disable"@);
        },
        ActionVariant::SystemReboot(_) => {
            lemma_tool_index(33);
            assert(spec_tool_row(33).0 == "system.reboot"@);
        },
        ActionVariant::SystemShutdown(_) => {
            lemma_tool_index(34);
            assert(spec_tool_row(34).0 == "system.shutdown"@);
        },
        ActionVariant::SystemSuspend => {
            lemma_tool_index(35);
            assert(spec_tool_row(35).0 == "system.suspend"@);
        },
        ActionVariant::CredentialSeal(_) => {
            lemma_tool_index(36);
            assert(spec_tool_row(36).0 == "credential.seal"@);
        },
        ActionVariant::CredentialUnseal(_) => {
            lemma_tool_index(37);
            assert(spec_tool_row(37).0 == "credential.unseal"@);
        },
        ActionVariant::PolicyReload => {
            lemma_tool_index(38);
            assert(spec_tool_row(38).0 == "policy.reload"@);
        },
    }
}

} // verus!
