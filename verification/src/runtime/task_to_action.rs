//! Turning an approved task into a typed action for the executor.
use vstd::prelude::*;

use crate::agent_core::task::{spec_task_kind_name, AgentTask, TaskKind};
use crate::json::{json_bool, json_field, json_text, json_u64, value_bool, value_field, value_text, value_u64};
use crate::runtime::action::{
    spec_action_name, spec_action_risk, Action, ActionVariant, ApplicationLaunchParams, DeviceDisableParams,
    DeviceEnableParams, DisplaySetBrightnessParams, ServiceRestartParams, SystemRebootParams, SystemShutdownParams,
};
use crate::text::{opt_view, spec_trim, str_eq, strings_view, to_owned_string, trim_string};

verus! {

/// Why a task cannot become an action.
#[derive(Debug, Clone, PartialEq, Eq)]
pub enum TaskToActionError {
    /// The session id was empty.
    EmptySessionId,
    /// The task kind has no executor mapping.
    UnsupportedKind { kind: TaskKind, reason: String },
    /// A required field was missing.
    MissingField { field: String },
    /// The arguments had an unexpected shape.
    InvalidArguments { message: String },
}

/// The message of each error.
pub open spec fn spec_task_to_action_message(e: TaskToActionError) -> Seq<char> {
    match e {
        TaskToActionError::EmptySessionId => "session_id is required"@,
        TaskToActionError::UnsupportedKind { kind, reason } => "task kind '"@ + spec_task_kind_name(kind)
            + "' is not executable: "@ + reason@,
        TaskToActionError::MissingField { field } => "missing required field '"@ + field@ + "'"@,
        TaskToActionError::InvalidArguments { message } => "invalid arguments: "@ + message@,
    }
}

/// A conversion error with its texts as character sequences.
pub enum TaskToActionErrorView {
    EmptySessionId,
    UnsupportedKind { kind: TaskKind, reason: Seq<char> },
    MissingField { field: Seq<char> },
    InvalidArguments { message: Seq<char> },
}

impl View for TaskToActionError {
    type V = TaskToActionErrorView;

    open spec fn view(&self) -> TaskToActionErrorView {
        match self {
            TaskToActionError::EmptySessionId => TaskToActionErrorView::EmptySessionId,
            TaskToActionError::UnsupportedKind { kind, reason } => TaskToActionErrorView::UnsupportedKind {
                kind: *kind,
                reason: reason@,
            },
            TaskToActionError::MissingField { field } => TaskToActionErrorView::MissingField { field: field@ },
            TaskToActionError::InvalidArguments { message } => TaskToActionErrorView::InvalidArguments {
                message: message@,
            },
        }
    }
}

impl TaskToActionError {
    /// The human-readable message.
    pub fn to_string(&self) -> (r: String)
        ensures
            r@ == spec_task_to_action_message(*self),
    {
        match self {
            TaskToActionError::EmptySessionId => String::from_str("session_id is required"),
            TaskToActionError::UnsupportedKind { kind, reason } => {
                let mut r = String::from_str("task kind '");
                r.append(kind.as_str());
                r.append("' is not executable: ");
                r.append(reason.as_str());
                r
            },
            TaskToActionError::MissingField { field } => {
                let mut r = String::from_str("missing required field '");
                r.append(field.as_str());
                r.append("'");
                r
            },
            TaskToActionError::InvalidArguments { message } => {
                let mut r = String::from_str("invalid arguments: ");
                r.append(message.as_str());
                r
            },
        }
    }
}

/// The action a task becomes, by its kind and parameters.
pub enum ActionPlan {
    /// Restart the named service.
    ServiceRestart(Seq<char>),
    /// Take a read-only context snapshot.
    ContextGet,
    /// Report the storage status.
    StorageStatus,
    /// Launch the named application.
    ApplicationLaunch(Seq<char>),
    /// Enable the named device.
    DeviceEnable(Seq<char>),
    /// Disable the named device.
    DeviceDisable(Seq<char>),
    /// Set the named display's brightness to a level.
    DisplaySetBrightness(Seq<char>, u8),
    /// Reboot after a delay in milliseconds.
    SystemReboot(u64),
    /// Shut down after a delay in milliseconds.
    SystemShutdown(u64),
    /// Suspend the system.
    SystemSuspend,
    /// Reload the security policy.
    PolicyReload,
}

/// The plan an action variant carries out, for the variants a task can
/// become.
pub open spec fn plan_of(v: ActionVariant) -> Option<ActionPlan> {
    match v {
        ActionVariant::ServiceRestart(p) => Some(ActionPlan::ServiceRestart(p.service_id@)),
        ActionVariant::ContextGet => Some(ActionPlan::ContextGet),
        ActionVariant::StorageStatus => Some(ActionPlan::StorageStatus),
        ActionVariant::ApplicationLaunch(p) => Some(ActionPlan::ApplicationLaunch(p.application_id@)),
        ActionVariant::DeviceEnable(p) => Some(ActionPlan::DeviceEnable(p.device_id@)),
        ActionVariant::DeviceDisable(p) => Some(ActionPlan::DeviceDisable(p.device_id@)),
        ActionVariant::DisplaySetBrightness(p) => Some(ActionPlan::DisplaySetBrightness(p.display_id@, p.level)),
        ActionVariant::SystemReboot(p) => Some(ActionPlan::SystemReboot(p.delay_ms)),
        ActionVariant::SystemShutdown(p) => Some(ActionPlan::SystemShutdown(p.delay_ms)),
        ActionVariant::SystemSuspend => Some(ActionPlan::SystemSuspend),
        ActionVariant::PolicyReload => Some(ActionPlan::PolicyReload),
        _ => None,
    }
}

/// The member `key` of the arguments, if any.
pub open spec fn arg_field(args: Option<serde_json::Value>, key: Seq<char>) -> Option<serde_json::Value> {
    match args {
        Some(a) => json_field(a, key),
        None => None,
    }
}

/// The text of the member `key` of the arguments, when it is a string.
pub open spec fn arg_text(args: Option<serde_json::Value>, key: Seq<char>) -> Option<Seq<char>> {
    match arg_field(args, key) {
        Some(v) => json_text(v),
        None => None,
    }
}

/// The first non-empty string among the arguments' members `keys`.
pub open spec fn first_nonempty_text(args: Option<serde_json::Value>, keys: Seq<Seq<char>>) -> Option<Seq<char>>
    decreases keys.len(),
{
    if keys.len() == 0 {
        None
    } else {
        match arg_text(args, keys[0]) {
            Some(s) => if s.len() > 0 {
                Some(s)
            } else {
                first_nonempty_text(args, keys.drop_first())
            },
            None => first_nonempty_text(args, keys.drop_first()),
        }
    }
}

/// A required string: the target when it is non-empty, else the first
/// non-empty string member among `keys`; missing, named by the first key.
pub open spec fn spec_string_field(
    target: Option<Seq<char>>,
    args: Option<serde_json::Value>,
    keys: Seq<Seq<char>>,
) -> Result<Seq<char>, TaskToActionErrorView> {
    if target is Some && target->0.len() > 0 {
        Ok(target->0)
    } else {
        match first_nonempty_text(args, keys) {
            Some(s) => Ok(s),
            None => Err(
                TaskToActionErrorView::MissingField { field: if keys.len() > 0 { keys[0] } else { "value"@ } },
            ),
        }
    }
}

/// The boolean member `key` of the arguments, if any.
pub open spec fn arg_bool(args: Option<serde_json::Value>, key: Seq<char>) -> Option<bool> {
    match arg_field(args, key) {
        Some(v) => json_bool(v),
        None => None,
    }
}

/// The unsigned number member `key` of the arguments, if any.
pub open spec fn arg_u64(args: Option<serde_json::Value>, key: Seq<char>) -> Option<u64> {
    match arg_field(args, key) {
        Some(v) => json_u64(v),
        None => None,
    }
}

/// The operation the arguments name: the `operation` member when there is
/// one (its text, if it is a string), else the `kind` member's text;
/// `default` when neither gives a string.
pub open spec fn spec_operation(args: Option<serde_json::Value>, default: Seq<char>) -> Seq<char> {
    let t = match arg_field(args, "operation"@) {
        Some(v) => json_text(v),
        None => arg_text(args, "kind"@),
    };
    match t {
        Some(s) => s,
        None => default,
    }
}

/// The plan for device control: the device by target or `device_id`
/// argument, enabled unless the `enable` argument is `false`.
pub open spec fn spec_device_plan(target: Option<Seq<char>>, args: Option<serde_json::Value>) -> Result<
    ActionPlan,
    TaskToActionErrorView,
> {
    match spec_string_field(target, args, seq!["device_id"@]) {
        Err(e) => Err(e),
        Ok(d) => if match arg_bool(args, "enable"@) {
            Some(b) => b,
            None => true,
        } {
            Ok(ActionPlan::DeviceEnable(d))
        } else {
            Ok(ActionPlan::DeviceDisable(d))
        },
    }
}

/// The plan for display control: the display by target or `display_id`
/// argument, and the required `level` argument capped at 100.
pub open spec fn spec_display_plan(target: Option<Seq<char>>, args: Option<serde_json::Value>) -> Result<
    ActionPlan,
    TaskToActionErrorView,
> {
    match spec_string_field(target, args, seq!["display_id"@]) {
        Err(e) => Err(e),
        Ok(d) => match arg_u64(args, "level"@) {
            None => Err(TaskToActionErrorView::MissingField { field: "level"@ }),
            Some(l) => Ok(ActionPlan::DisplaySetBrightness(d, if l < 100 { l as u8 } else { 100u8 })),
        },
    }
}

/// The plan for power control, by its operation (`reboot` by default):
/// reboot or restart and shutdown after the `delay_ms` argument (0 when
/// absent), suspend or hibernate; any other operation is invalid.
pub open spec fn spec_power_plan(args: Option<serde_json::Value>) -> Result<ActionPlan, TaskToActionErrorView> {
    let op = spec_operation(args, "reboot"@);
    let delay = match arg_u64(args, "delay_ms"@) {
        Some(d) => d,
        None => 0u64,
    };
    if op == "reboot"@ || op == "restart"@ {
        Ok(ActionPlan::SystemReboot(delay))
    } else if op == "shutdown"@ {
        Ok(ActionPlan::SystemShutdown(delay))
    } else if op == "suspend"@ || op == "hibernate"@ {
        Ok(ActionPlan::SystemSuspend)
    } else {
        Err(TaskToActionErrorView::InvalidArguments { message: "unknown power operation '"@ + op + "'"@ })
    }
}

/// The plan for security control, by its operation (`policy.reload` by
/// default): a policy reload; any other operation is not wired.
pub open spec fn spec_security_plan(args: Option<serde_json::Value>) -> Result<ActionPlan, TaskToActionErrorView> {
    let op = spec_operation(args, "policy.reload"@);
    if op == "policy.reload"@ || op == "policy_reload"@ {
        Ok(ActionPlan::PolicyReload)
    } else {
        Err(
            TaskToActionErrorView::UnsupportedKind {
                kind: TaskKind::SecurityControl,
                reason: "security operation '"@ + op + "' is not wired yet"@,
            },
        )
    }
}

/// The plan for a clean-up proposal: dropping the page cache, freeing the
/// disk cache or an unnamed clean-up reports the storage status; any other
/// kind is not wired.
pub open spec fn spec_cleanup_plan(args: Option<serde_json::Value>) -> Result<ActionPlan, TaskToActionErrorView> {
    let kind = match arg_text(args, "kind"@) {
        Some(k) => k,
        None => ""@,
    };
    if kind == "drop_page_cache"@ || kind == "free_disk_cache"@ || kind == ""@ {
        Ok(ActionPlan::StorageStatus)
    } else {
        Err(
            TaskToActionErrorView::UnsupportedKind {
                kind: TaskKind::ProposeCleanup,
                reason: "cleanup kind '"@ + kind + "' is not wired yet"@,
            },
        )
    }
}

/// The plan for a custom task, by its `kind` argument, which is required.
pub open spec fn spec_custom_plan(args: Option<serde_json::Value>) -> Result<ActionPlan, TaskToActionErrorView> {
    match arg_text(args, "kind"@) {
        None => Err(TaskToActionErrorView::MissingField { field: "kind"@ }),
        Some(kind) => if kind == "restart_service"@ {
            match spec_string_field(None, args, seq!["service"@]) {
                Ok(s) => Ok(ActionPlan::ServiceRestart(s)),
                Err(e) => Err(e),
            }
        } else if kind == "restart_app"@ {
            match spec_string_field(None, args, seq!["app_id"@]) {
                Ok(s) => Ok(ActionPlan::ApplicationLaunch(s)),
                Err(e) => Err(e),
            }
        } else if kind == "inform_user"@ {
            Ok(ActionPlan::ContextGet)
        } else if kind == "kill_process"@ {
            Err(
                TaskToActionErrorView::UnsupportedKind {
                    kind: TaskKind::Custom,
                    reason: "kill_process requires a future process.kill action"@,
                },
            )
        } else {
            Err(
                TaskToActionErrorView::UnsupportedKind {
                    kind: TaskKind::Custom,
                    reason: "custom kind '"@ + kind + "' is not wired yet"@,
                },
            )
        },
    }
}

/// The plan for an approved task in a session: refused without a session;
/// a restart names its service by target or `service` argument; a
/// notification takes a context snapshot; device, display, power and
/// security control go by their target and arguments; clean-up and
/// custom tasks go by their `kind` argument; update, install and scan
/// proposals need a human operator.
pub open spec fn spec_task_plan(session_id: Seq<char>, task: AgentTask) -> Result<ActionPlan, TaskToActionErrorView> {
    if spec_trim(session_id).len() == 0 {
        Err(TaskToActionErrorView::EmptySessionId)
    } else {
        match task.kind {
            TaskKind::RestartService => match spec_string_field(opt_view(task.target), task.arguments, seq!["service"@]) {
                Ok(s) => Ok(ActionPlan::ServiceRestart(s)),
                Err(e) => Err(e),
            },
            TaskKind::Notify => Ok(ActionPlan::ContextGet),
            TaskKind::DeviceControl => spec_device_plan(opt_view(task.target), task.arguments),
            TaskKind::DisplayControl => spec_display_plan(opt_view(task.target), task.arguments),
            TaskKind::PowerControl => spec_power_plan(task.arguments),
            TaskKind::SecurityControl => spec_security_plan(task.arguments),
            TaskKind::ProposeCleanup => spec_cleanup_plan(task.arguments),
            TaskKind::Custom => spec_custom_plan(task.arguments),
            _ => Err(
                TaskToActionErrorView::UnsupportedKind {
                    kind: task.kind,
                    reason: "meta-proposals require a human operator or a future update pipeline"@,
                },
            ),
        }
    }
}

/// The member `key` of optional arguments.
fn arg_value(args: Option<&serde_json::Value>, key: &str) -> (r: Option<serde_json::Value>)
    ensures
        r == arg_field(match args {
            Some(a) => Some(*a),
            None => None,
        }, key@),
{
    match args {
        Some(a) => value_field(a, key),
        None => None,
    }
}

/// The text of the member `key` of optional arguments.
fn arg_string(args: Option<&serde_json::Value>, key: &str) -> (r: Option<String>)
    ensures
        opt_view(r) == arg_text(match args {
            Some(a) => Some(*a),
            None => None,
        }, key@),
{
    match arg_value(args, key) {
        Some(v) => value_text(&v),
        None => None,
    }
}

/// A required string: the non-empty target, else the first non-empty
/// string member among `keys`.
pub fn string_field(target: Option<&str>, args: Option<&serde_json::Value>, keys: &[&str]) -> (r: Result<
    String,
    TaskToActionError,
>)
    ensures
        match r {
            Ok(s) => spec_string_field(match target {
                Some(t) => Some(t@),
                None => None,
            }, match args {
                Some(a) => Some(*a),
                None => None,
            }, keys@.map_values(|k: &str| k@)) == Ok::<Seq<char>, TaskToActionErrorView>(s@),
            Err(e) => spec_string_field(match target {
                Some(t) => Some(t@),
                None => None,
            }, match args {
                Some(a) => Some(*a),
                None => None,
            }, keys@.map_values(|k: &str| k@)) == Err::<Seq<char>, TaskToActionErrorView>(e@),
        },
{
    let ghost a = match args {
        Some(a) => Some(*a),
        None => None,
    };
    let ghost ks = keys@.map_values(|k: &str| k@);
    if let Some(t) = target {
        if !t.is_empty() {
            return Ok(to_owned_string(t));
        }
    }
    let mut i: usize = 0;
    proof {
        assert(ks.skip(0) =~= ks);
    }
    while i < keys.len()
        invariant
            i <= keys@.len(),
            a == match args {
                Some(a) => Some(*a),
                None => None::<serde_json::Value>,
            },
            ks == keys@.map_values(|k: &str| k@),
            match target {
                Some(t) => t@.len() == 0,
                None => true,
            },
            first_nonempty_text(a, ks) == first_nonempty_text(a, ks.skip(i as int)),
        decreases keys@.len() - i,
    {
        proof {
            assert(ks.skip(i as int).drop_first() =~= ks.skip(i + 1));
            assert(ks.skip(i as int)[0] == keys@[i as int]@);
        }
        match arg_string(args, keys[i]) {
            Some(s) => {
                if !s.as_str().is_empty() {
                    return Ok(s);
                }
            },
            None => {},
        }
        i += 1;
    }
    proof {
        assert(ks.skip(i as int).len() == 0);
    }
    let field = if keys.len() > 0 {
        to_owned_string(keys[0])
    } else {
        String::from_str("value")
    };
    Err(TaskToActionError::MissingField { field })
}

/// The boolean member `key` of optional arguments.
fn arg_boolean(args: Option<&serde_json::Value>, key: &str) -> (r: Option<bool>)
    ensures
        r == arg_bool(match args {
            Some(a) => Some(*a),
            None => None,
        }, key@),
{
    match arg_value(args, key) {
        Some(v) => value_bool(&v),
        None => None,
    }
}

/// The unsigned number member `key` of optional arguments.
fn arg_number(args: Option<&serde_json::Value>, key: &str) -> (r: Option<u64>)
    ensures
        r == arg_u64(match args {
            Some(a) => Some(*a),
            None => None,
        }, key@),
{
    match arg_value(args, key) {
        Some(v) => value_u64(&v),
        None => None,
    }
}

/// The operation the arguments name, or `default`.
fn operation(args: Option<&serde_json::Value>, default: &str) -> (r: String)
    ensures
        r@ == spec_operation(match args {
            Some(a) => Some(*a),
            None => None,
        }, default@),
{
    let t = match arg_value(args, "operation") {
        Some(v) => value_text(&v),
        None => arg_string(args, "kind"),
    };
    match t {
        Some(s) => s,
        None => to_owned_string(default),
    }
}

/// The action for power control.
fn power_variant(args: Option<&serde_json::Value>) -> (r: Result<ActionVariant, TaskToActionError>)
    ensures
        match r {
            Ok(v) => spec_power_plan(match args {
                Some(a) => Some(*a),
                None => None,
            }) == Ok::<ActionPlan, TaskToActionErrorView>(plan_of(v)->0) && plan_of(v) is Some,
            Err(e) => spec_power_plan(match args {
                Some(a) => Some(*a),
                None => None,
            }) == Err::<ActionPlan, TaskToActionErrorView>(e@),
        },
{
    let op = operation(args, "reboot");
    let o = op.as_str();
    let delay_ms = match arg_number(args, "delay_ms") {
        Some(d) => d,
        None => 0,
    };
    if str_eq(o, "reboot") || str_eq(o, "restart") {
        Ok(ActionVariant::SystemReboot(SystemRebootParams { delay_ms }))
    } else if str_eq(o, "shutdown") {
        Ok(ActionVariant::SystemShutdown(SystemShutdownParams { delay_ms }))
    } else if str_eq(o, "suspend") || str_eq(o, "hibernate") {
        Ok(ActionVariant::SystemSuspend)
    } else {
        let mut message = String::from_str("unknown power operation '");
        message.append(o);
        message.append("'");
        Err(TaskToActionError::InvalidArguments { message })
    }
}

/// The action for security control.
fn security_variant(args: Option<&serde_json::Value>) -> (r: Result<ActionVariant, TaskToActionError>)
    ensures
        match r {
            Ok(v) => spec_security_plan(match args {
                Some(a) => Some(*a),
                None => None,
            }) == Ok::<ActionPlan, TaskToActionErrorView>(plan_of(v)->0) && plan_of(v) is Some,
            Err(e) => spec_security_plan(match args {
                Some(a) => Some(*a),
                None => None,
            }) == Err::<ActionPlan, TaskToActionErrorView>(e@),
        },
{
    let op = operation(args, "policy.reload");
    let o = op.as_str();
    if str_eq(o, "policy.reload") || str_eq(o, "policy_reload") {
        Ok(ActionVariant::PolicyReload)
    } else {
        let mut reason = String::from_str("security operation '");
        reason.append(o);
        reason.append("' is not wired yet");
        Err(TaskToActionError::UnsupportedKind { kind: TaskKind::SecurityControl, reason })
    }
}

/// The action for a clean-up proposal.
fn cleanup_variant(args: Option<&serde_json::Value>) -> (r: Result<ActionVariant, TaskToActionError>)
    ensures
        match r {
            Ok(v) => spec_cleanup_plan(match args {
                Some(a) => Some(*a),
                None => None,
            }) == Ok::<ActionPlan, TaskToActionErrorView>(plan_of(v)->0) && plan_of(v) is Some,
            Err(e) => spec_cleanup_plan(match args {
                Some(a) => Some(*a),
                None => None,
            }) == Err::<ActionPlan, TaskToActionErrorView>(e@),
        },
{
    proof {
        reveal_strlit("");
    }
    let kind = match arg_string(args, "kind") {
        Some(k) => k,
        None => String::new(),
    };
    let k = kind.as_str();
    assert(k@ == match arg_text(match args {
        Some(a) => Some(*a),
        None => None,
    }, "kind"@) {
        Some(x) => x,
        None => ""@,
    });
    if str_eq(k, "drop_page_cache") || str_eq(k, "free_disk_cache") || str_eq(k, "") {
        Ok(ActionVariant::StorageStatus)
    } else {
        let mut reason = String::from_str("cleanup kind '");
        reason.append(k);
        reason.append("' is not wired yet");
        Err(TaskToActionError::UnsupportedKind { kind: TaskKind::ProposeCleanup, reason })
    }
}

/// The action for a custom task.
fn custom_variant(args: Option<&serde_json::Value>) -> (r: Result<ActionVariant, TaskToActionError>)
    ensures
        match r {
            Ok(v) => spec_custom_plan(match args {
                Some(a) => Some(*a),
                None => None,
            }) == Ok::<ActionPlan, TaskToActionErrorView>(plan_of(v)->0) && plan_of(v) is Some,
            Err(e) => spec_custom_plan(match args {
                Some(a) => Some(*a),
                None => None,
            }) == Err::<ActionPlan, TaskToActionErrorView>(e@),
        },
{
    let kind = match arg_string(args, "kind") {
        Some(k) => k,
        None => {
            return Err(TaskToActionError::MissingField { field: String::from_str("kind") });
        },
    };
    let k = kind.as_str();
    if str_eq(k, "restart_service") {
        let keys: [&str; 1] = ["service"];
        proof {
            assert(keys@.map_values(|k: &str| k@) =~= seq!["service"@]);
        }
        let service = string_field(None, args, &keys)?;
        Ok(ActionVariant::ServiceRestart(ServiceRestartParams { service_id: service }))
    } else if str_eq(k, "restart_app") {
        let keys: [&str; 1] = ["app_id"];
        proof {
            assert(keys@.map_values(|k: &str| k@) =~= seq!["app_id"@]);
        }
        let app_id = string_field(None, args, &keys)?;
        Ok(ActionVariant::ApplicationLaunch(ApplicationLaunchParams { application_id: app_id }))
    } else if str_eq(k, "inform_user") {
        Ok(ActionVariant::ContextGet)
    } else if str_eq(k, "kill_process") {
        Err(
            TaskToActionError::UnsupportedKind {
                kind: TaskKind::Custom,
                reason: String::from_str("kill_process requires a future process.kill action"),
            },
        )
    } else {
        let mut reason = String::from_str("custom kind '");
        reason.append(k);
        reason.append("' is not wired yet");
        Err(TaskToActionError::UnsupportedKind { kind: TaskKind::Custom, reason })
    }
}

/// Turns an approved task into a typed action in the session: the action
/// the task's plan names, with the task's description as its reason and
/// the risk and capability its variant carries.
pub fn task_to_action(session_id: &str, task: &AgentTask) -> (r: Result<Action, TaskToActionError>)
    ensures
        match r {
            Ok(a) => {
                &&& plan_of(a.variant) is Some
                &&& spec_task_plan(session_id@, *task) == Ok::<ActionPlan, TaskToActionErrorView>(plan_of(a.variant)->0)
                &&& a.session_id@ == session_id@
                &&& a.reason@ == task.description@
                &&& a.risk_level == spec_action_risk(a.variant)
                &&& strings_view(a.requested_capabilities@) == seq![spec_action_name(a.variant)]
                &&& a.timeout_ms == 30_000
            },
            Err(e) => spec_task_plan(session_id@, *task) == Err::<ActionPlan, TaskToActionErrorView>(e@),
        },
{
    let trimmed = trim_string(session_id);
    if trimmed.as_str().is_empty() {
        return Err(TaskToActionError::EmptySessionId);
    }
    let args = task.arguments.as_ref();
    let variant = match task.kind {
        TaskKind::RestartService => {
            let keys: [&str; 1] = ["service"];
            proof {
                assert(keys@.map_values(|k: &str| k@) =~= seq!["service"@]);
            }
            let target = match &task.target {
                Some(t) => Some(t.as_str()),
                None => None,
            };
            let service = string_field(target, args, &keys)?;
            ActionVariant::ServiceRestart(ServiceRestartParams { service_id: service })
        },
        TaskKind::Notify => ActionVariant::ContextGet,
        TaskKind::DeviceControl => {
            let keys: [&str; 1] = ["device_id"];
            proof {
                assert(keys@.map_values(|k: &str| k@) =~= seq!["device_id"@]);
            }
            let target = match &task.target {
                Some(t) => Some(t.as_str()),
                None => None,
            };
            let device_id = string_field(target, args, &keys)?;
            let enable = match arg_boolean(args, "enable") {
                Some(b) => b,
                None => true,
            };
            if enable {
                ActionVariant::DeviceEnable(DeviceEnableParams { device_id })
            } else {
                ActionVariant::DeviceDisable(DeviceDisableParams { device_id })
            }
        },
        TaskKind::DisplayControl => {
            let keys: [&str; 1] = ["display_id"];
            proof {
                assert(keys@.map_values(|k: &str| k@) =~= seq!["display_id"@]);
            }
            let target = match &task.target {
                Some(t) => Some(t.as_str()),
                None => None,
            };
            let display_id = string_field(target, args, &keys)?;
            let level = match arg_number(args, "level") {
                Some(l) => l,
                None => {
                    return Err(TaskToActionError::MissingField { field: String::from_str("level") });
                },
            };
            let level: u8 = if level < 100 { level as u8 } else { 100 };
            ActionVariant::DisplaySetBrightness(DisplaySetBrightnessParams { display_id, level })
        },
        TaskKind::PowerControl => power_variant(args)?,
        TaskKind::SecurityControl => security_variant(args)?,
        TaskKind::ProposeCleanup => cleanup_variant(args)?,
        TaskKind::Custom => custom_variant(args)?,
        TaskKind::ProposeUpdate | TaskKind::ProposeInstall | TaskKind::ProposeSecurityScan => {
            return Err(
                TaskToActionError::UnsupportedKind {
                    kind: task.kind,
                    reason: String::from_str("meta-proposals require a human operator or a future update pipeline"),
                },
            );
        },
    };
    Ok(Action::new(session_id, variant, task.description.as_str()))
}

/// A power task's reboot or shutdown waits exactly the `delay_ms` the
/// task's arguments give (no wait when they give none): the delay is
/// passed on, never dropped or changed.
pub proof fn law_power_delay_is_kept(args: Option<serde_json::Value>, d: u64)
    ensures
        spec_power_plan(args) == Ok::<ActionPlan, TaskToActionErrorView>(ActionPlan::SystemShutdown(d))
            ==> d == match arg_u64(args, "delay_ms"@) {
            Some(x) => x,
            None => 0u64,
        },
        spec_power_plan(args) == Ok::<ActionPlan, TaskToActionErrorView>(ActionPlan::SystemReboot(d))
            ==> d == match arg_u64(args, "delay_ms"@) {
            Some(x) => x,
            None => 0u64,
        },
        spec_operation(args, "reboot"@) == "shutdown"@ ==> spec_power_plan(args) is Ok
            && spec_power_plan(args)->Ok_0 is SystemShutdown,
{
    reveal_strlit("shutdown");
    reveal_strlit("reboot");
    reveal_strlit("restart");
    assert("shutdown"@.len() == 8 && "reboot"@.len() == 6 && "restart"@.len() == 7);
}

} // verus!
