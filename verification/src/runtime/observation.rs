//! Observations: what an executed action reported back, as structured
//! data the agent reasons about.
use vstd::prelude::*;

use crate::ids::{random_uuid, uuid_text, is_hyphenated_uuid_text};
use crate::runtime::clock::unix_time_ms;
use crate::json::{bool_value, empty_object, json_bool, json_field, json_is_object, json_text, object_insert,
    string_value};
use crate::text::to_owned_string;

verus! {

/// A unique observation identifier.
#[derive(Debug, Clone, Copy, PartialEq, Eq, Hash)]
pub struct ObservationId(pub uuid::Uuid);

impl ObservationId {
    /// A fresh random identifier.
    pub fn new() -> (r: ObservationId) {
        ObservationId(random_uuid())
    }

    /// The identifier in hyphenated form.
    pub fn to_string(&self) -> (r: String)
        ensures
            is_hyphenated_uuid_text(r@),
    {
        uuid_text(&self.0)
    }
}

/// The kind of an observation, with what it carries.
#[derive(Debug, Clone)]
pub enum ObservationType {
    ApplicationStarted { application_id: String },
    ApplicationFailed { application_id: String, reason: String },
    ApplicationClosed { application_id: String },
    ProcessExited { pid: u32, exit_code: i32 },
    WindowCreated { window_id: u64 },
    WindowClosed { window_id: u64 },
    WindowFocused { window_id: u64 },
    WindowMinimized { window_id: u64 },
    WindowMaximized { window_id: u64 },
    WindowList { windows: serde_json::Value },
    FilesystemResult { operation: String, data: serde_json::Value },
    NetworkStatus { data: serde_json::Value },
    NetworkInterfaces { data: serde_json::Value },
    SystemStatus { data: serde_json::Value },
    SystemInfo { data: serde_json::Value },
    SystemResources { data: serde_json::Value },
    SystemUptime { data: serde_json::Value },
    StorageStatus { data: serde_json::Value },
    ProcessList { processes: serde_json::Value },
    ProcessInspect { data: serde_json::Value },
    ContextSnapshot { data: serde_json::Value },
    Error { message: String },
}

/// The dotted name of each kind of observation.
pub open spec fn spec_observation_type_name(t: ObservationType) -> Seq<char> {
    match t {
        ObservationType::ApplicationStarted { .. } => "application.started"@,
        ObservationType::ApplicationFailed { .. } => "application.failed"@,
        ObservationType::ApplicationClosed { .. } => "application.closed"@,
        ObservationType::ProcessExited { .. } => "process.exited"@,
        ObservationType::WindowCreated { .. } => "window.created"@,
        ObservationType::WindowClosed { .. } => "window.closed"@,
        ObservationType::WindowFocused { .. } => "window.focused"@,
        ObservationType::WindowMinimized { .. } => "window.minimized"@,
        ObservationType::WindowMaximized { .. } => "window.maximized"@,
        ObservationType::WindowList { .. } => "window.list"@,
        ObservationType::FilesystemResult { .. } => "filesystem.result"@,
        ObservationType::NetworkStatus { .. } => "network.status"@,
        ObservationType::NetworkInterfaces { .. } => "network.interfaces"@,
        ObservationType::SystemStatus { .. } => "system.status"@,
        ObservationType::SystemInfo { .. } => "system.info"@,
        ObservationType::SystemResources { .. } => "system.resources"@,
        ObservationType::SystemUptime { .. } => "system.uptime"@,
        ObservationType::StorageStatus { .. } => "storage.status"@,
        ObservationType::ProcessList { .. } => "process.list"@,
        ObservationType::ProcessInspect { .. } => "process.inspect"@,
        ObservationType::ContextSnapshot { .. } => "context.snapshot"@,
        ObservationType::Error { .. } => "error"@,
    }
}

/// The dotted name of a kind of observation, such as `window.list`.
pub fn observation_type_name(t: &ObservationType) -> (r: &'static str)
    ensures
        r@ == spec_observation_type_name(*t),
{
    match t {
        ObservationType::ApplicationStarted { .. } => "application.started",
        ObservationType::ApplicationFailed { .. } => "application.failed",
        ObservationType::ApplicationClosed { .. } => "application.closed",
        ObservationType::ProcessExited { .. } => "process.exited",
        ObservationType::WindowCreated { .. } => "window.created",
        ObservationType::WindowClosed { .. } => "window.closed",
        ObservationType::WindowFocused { .. } => "window.focused",
        ObservationType::WindowMinimized { .. } => "window.minimized",
        ObservationType::WindowMaximized { .. } => "window.maximized",
        ObservationType::WindowList { .. } => "window.list",
        ObservationType::FilesystemResult { .. } => "filesystem.result",
        ObservationType::NetworkStatus { .. } => "network.status",
        ObservationType::NetworkInterfaces { .. } => "network.interfaces",
        ObservationType::SystemStatus { .. } => "system.status",
        ObservationType::SystemInfo { .. } => "system.info",
        ObservationType::SystemResources { .. } => "system.resources",
        ObservationType::SystemUptime { .. } => "system.uptime",
        ObservationType::StorageStatus { .. } => "storage.status",
        ObservationType::ProcessList { .. } => "process.list",
        ObservationType::ProcessInspect { .. } => "process.inspect",
        ObservationType::ContextSnapshot { .. } => "context.snapshot",
        ObservationType::Error { .. } => "error",
    }
}

/// A structured observation of an executed action.
#[derive(Debug, Clone)]
pub struct Observation {
    /// The observation's identifier.
    pub id: ObservationId,
    /// The action observed.
    pub action_id: String,
    /// The session of the action.
    pub session_id: String,
    /// Milliseconds since the Unix epoch.
    pub timestamp: u64,
    /// What was observed.
    pub observation_type: ObservationType,
    /// Whether the action succeeded: every kind but `Error`.
    pub success: bool,
    /// The observation in its serialised form.
    pub data: serde_json::Value,
}

impl Observation {
    /// An observation made at `now`: successful unless it reports an
    /// error. `data` is the observation type in its serialised form.
    pub fn new_at(
        now: u64,
        action_id: &str,
        session_id: String,
        obs_type: ObservationType,
        data: serde_json::Value,
    ) -> (r: Observation)
        ensures
            r.action_id@ == action_id@,
            r.session_id@ == session_id@,
            r.timestamp == now,
            r.observation_type == obs_type,
            r.success == !(obs_type is Error),
            r.data == data,
    {
        let success = match &obs_type {
            ObservationType::Error { .. } => false,
            _ => true,
        };
        Observation {
            id: ObservationId::new(),
            action_id: to_owned_string(action_id),
            session_id,
            timestamp: now,
            observation_type: obs_type,
            success,
            data,
        }
    }

    /// An observation made now, by the system clock.
    pub fn new(action_id: &str, session_id: String, obs_type: ObservationType, data: serde_json::Value) -> (r:
        Observation)
        ensures
            r.action_id@ == action_id@,
            r.session_id@ == session_id@,
            r.observation_type == obs_type,
            r.success == !(obs_type is Error),
            r.data == data,
    {
        Observation::new_at(unix_time_ms(), action_id, session_id, obs_type, data)
    }

    /// The observation as a model is shown it: whether it succeeded, its
    /// kind by `type_label` (the caller's rendering of the kind), and
    /// only the payload worth reading (the application, the failure's
    /// reason, the window list, the file operation and its data, the
    /// error message; the serialised observation for the other kinds).
    pub fn normalized(&self, type_label: &str) -> (r: serde_json::Value)
        ensures
            is_normalized(r, *self, type_label@),
    {
        proof {
            reveal_strlit("success");
            reveal_strlit("type");
            reveal_strlit("application_id");
            reveal_strlit("reason");
            reveal_strlit("windows");
            reveal_strlit("operation");
            reveal_strlit("data");
            reveal_strlit("error");
            assert("success"@[0] != "type"@[0]);
            assert("application_id"@[0] != "reason"@[0]);
            assert("operation"@[0] != "data"@[0]);
        }
        let o0 = empty_object();
        let o1 = object_insert(o0, "success", bool_value(self.success));
        let o = object_insert(o1, "type", string_value(type_label));
        assert(json_field(o, "success"@) == json_field(o1, "success"@));
        let r = match &self.observation_type {
            ObservationType::ApplicationStarted { application_id } => object_insert(
                o,
                "application_id",
                string_value(application_id.as_str()),
            ),
            ObservationType::ApplicationFailed { application_id, reason } => {
                let a = object_insert(o, "application_id", string_value(application_id.as_str()));
                let b = object_insert(a, "reason", string_value(reason.as_str()));
                assert(json_field(b, "application_id"@) == json_field(a, "application_id"@));
                b
            },
            ObservationType::WindowList { windows } => object_insert(o, "windows", windows.clone()),
            ObservationType::FilesystemResult { operation, data } => {
                let a = object_insert(o, "operation", string_value(operation.as_str()));
                let b = object_insert(a, "data", data.clone());
                assert(json_field(b, "operation"@) == json_field(a, "operation"@));
                b
            },
            ObservationType::Error { message } => object_insert(o, "error", string_value(message.as_str())),
            _ => object_insert(o, "data", self.data.clone()),
        };
        r
    }
}

/// A member of a normalized observation: a string, or a JSON value.
pub enum NormalizedMember {
    Text(Seq<char>),
    Json(serde_json::Value),
}

/// The member `k` a normalized observation has beyond `success` and
/// `type`: `application_id` for a started application; `application_id`
/// and `reason` for a failed one; `windows` for a window list;
/// `operation` and `data` for a file operation; `error` for an error; the
/// serialised observation as `data` for every other kind.
pub open spec fn normalized_member(obs: Observation, k: Seq<char>) -> Option<NormalizedMember> {
    match obs.observation_type {
        ObservationType::ApplicationStarted { application_id } => if k == "application_id"@ {
            Some(NormalizedMember::Text(application_id@))
        } else {
            None
        },
        ObservationType::ApplicationFailed { application_id, reason } => if k == "application_id"@ {
            Some(NormalizedMember::Text(application_id@))
        } else if k == "reason"@ {
            Some(NormalizedMember::Text(reason@))
        } else {
            None
        },
        ObservationType::WindowList { windows } => if k == "windows"@ {
            Some(NormalizedMember::Json(windows))
        } else {
            None
        },
        ObservationType::FilesystemResult { operation, data } => if k == "operation"@ {
            Some(NormalizedMember::Text(operation@))
        } else if k == "data"@ {
            Some(NormalizedMember::Json(data))
        } else {
            None
        },
        ObservationType::Error { message } => if k == "error"@ {
            Some(NormalizedMember::Text(message@))
        } else {
            None
        },
        _ => if k == "data"@ {
            Some(NormalizedMember::Json(obs.data))
        } else {
            None
        },
    }
}

/// `r` is the normalized form of `obs` with kind label `label`: an object
/// whose `success` is the observation's success, whose `type` is the
/// label, and whose other members are exactly those `normalized_member`
/// gives.
pub open spec fn is_normalized(r: serde_json::Value, obs: Observation, label: Seq<char>) -> bool {
    &&& json_is_object(r)
    &&& json_field(r, "success"@) matches Some(v) && json_bool(v) == Some(obs.success)
    &&& json_field(r, "type"@) matches Some(v) && json_text(v) == Some(label)
    &&& forall|k: Seq<char>|
        k != "success"@ && k != "type"@ ==> match #[trigger] normalized_member(obs, k) {
            Some(NormalizedMember::Text(t)) => json_field(r, k) matches Some(v) && json_text(v) == Some(t),
            Some(NormalizedMember::Json(x)) => json_field(r, k) == Some(x),
            None => json_field(r, k) is None,
        }
}

} // verus!
