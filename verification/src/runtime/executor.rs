//! The action executor: which service command (or surface request) each
//! action becomes, with its parameters, and the observation each reply
//! becomes. Sending the request is I/O, done by the caller with the
//! executor's ports.
use vstd::prelude::*;

use crate::json::{
    empty_object, json_field, json_is_null, json_is_object, json_member, json_parse, json_text, json_u64, null_value,
    number_value, object_insert, parse_json, string_value, value_member,
};
use crate::runtime::action::{spec_action_name, variant_name, Action, ActionVariant};
use crate::runtime::errors::AgentError;
use crate::runtime::observation::{Observation, ObservationType};
use crate::text::{opt_view, spec_trim, str_chars, to_owned_string, trim_string};

verus! {

/// The executor of actions.
#[derive(Debug, Clone, Copy, PartialEq, Eq, Structural)]
pub struct ActionExecutor {
    control_port: u16,
    surface_port: u16,
}

impl ActionExecutor {
    /// An executor talking to the given control and surface ports.
    pub fn new(control_port: u16, surface_port: u16) -> (r: ActionExecutor)
        ensures
            r.spec_control_port() == control_port,
            r.spec_surface_port() == surface_port,
    {
        ActionExecutor { control_port, surface_port }
    }

    /// The control port.
    pub closed spec fn spec_control_port(&self) -> u16 {
        self.control_port
    }

    /// The surface port.
    pub closed spec fn spec_surface_port(&self) -> u16 {
        self.surface_port
    }

    /// The port of the system core.
    pub fn control_port(&self) -> (r: u16)
        ensures
            r == self.spec_control_port(),
    {
        self.control_port
    }

    /// The port of the surface server.
    pub fn surface_port(&self) -> (r: u16)
        ensures
            r == self.spec_surface_port(),
    {
        self.surface_port
    }
}

/// A request parameter.
#[derive(Debug, Clone)]
pub enum ParamValue {
    /// A string.
    Text(String),
    /// A number.
    Number(u64),
    /// No value (`null`).
    Null,
}

/// A request parameter with its text as a character sequence.
pub enum ParamView {
    Text(Seq<char>),
    Number(u64),
    Null,
}

impl View for ParamValue {
    type V = ParamView;

    open spec fn view(&self) -> ParamView {
        match self {
            ParamValue::Text(s) => ParamView::Text(s@),
            ParamValue::Number(n) => ParamView::Number(*n),
            ParamValue::Null => ParamView::Null,
        }
    }
}

/// The named parameters of a request, by their views.
pub open spec fn params_view(ps: Seq<(String, ParamValue)>) -> Seq<(Seq<char>, ParamView)> {
    ps.map_values(|p: (String, ParamValue)| (p.0@, p.1@))
}

/// What executing an action takes.
#[derive(Debug, Clone)]
pub enum ExecutionStep {
    /// A command to a service on the control port.
    Control { service_id: String, command: String, parameters: Vec<(String, ParamValue)> },
    /// A request to the surface server.
    Surface { payload: Vec<(String, ParamValue)> },
    /// Nothing to ask: the observation is immediate.
    Local,
}

/// An execution step with its texts as character sequences.
pub enum StepView {
    Control { service_id: Seq<char>, command: Seq<char>, parameters: Seq<(Seq<char>, ParamView)> },
    Surface { payload: Seq<(Seq<char>, ParamView)> },
    Local,
}

impl View for ExecutionStep {
    type V = StepView;

    open spec fn view(&self) -> StepView {
        match self {
            ExecutionStep::Control { service_id, command, parameters } => StepView::Control {
                service_id: service_id@,
                command: command@,
                parameters: params_view(parameters@),
            },
            ExecutionStep::Surface { payload } => StepView::Surface { payload: params_view(payload@) },
            ExecutionStep::Local => StepView::Local,
        }
    }
}

/// The service that serves the system commands.
pub const SYSTEM_CORE_SERVICE: &'static str = "aether-system-core";

/// A command to the system core.
pub open spec fn core_step(command: Seq<char>, parameters: Seq<(Seq<char>, ParamView)>) -> StepView {
    StepView::Control { service_id: SYSTEM_CORE_SERVICE@, command, parameters }
}

/// A text parameter.
pub open spec fn text_param(key: Seq<char>, s: Seq<char>) -> (Seq<char>, ParamView) {
    (key, ParamView::Text(s))
}

/// An optional text parameter: `null` when absent.
pub open spec fn opt_text_param(key: Seq<char>, s: Option<Seq<char>>) -> (Seq<char>, ParamView) {
    match s {
        Some(x) => (key, ParamView::Text(x)),
        None => (key, ParamView::Null),
    }
}

/// A window id, `0` when absent.
pub open spec fn id_or_zero(o: Option<u64>) -> u64 {
    match o {
        Some(i) => i,
        None => 0,
    }
}

/// An optional number parameter: `null` when absent.
pub open spec fn opt_number_param(key: Seq<char>, n: Option<u32>) -> (Seq<char>, ParamView) {
    match n {
        Some(x) => (key, ParamView::Number(x as u64)),
        None => (key, ParamView::Null),
    }
}

/// What executing each action takes; the error message when it cannot be
/// executed. Applications, files, processes, the network and the system
/// are served by the system core, windows by the surface server; a
/// context snapshot is immediate.
pub open spec fn spec_execution_step(v: ActionVariant) -> Result<StepView, Seq<char>> {
    match v {
        ActionVariant::ApplicationLaunch(p) => Ok(core_step("app.launch"@, seq![text_param("app"@, p.application_id@)])),
        ActionVariant::ApplicationClose(p) => Ok(core_step("app.close"@, seq![text_param("app"@, p.application_id@)])),
        ActionVariant::WindowList => Ok(StepView::Surface { payload: seq![text_param("op"@, "window.list"@)] }),
        ActionVariant::WindowFocus(p) => Ok(
            StepView::Surface {
                payload: seq![
                    text_param("op"@, "window.focus"@),
                    ("window_id"@, ParamView::Number(id_or_zero(p.window_id))),
                ],
            },
        ),
        ActionVariant::WindowMinimize(p) => Ok(
            StepView::Surface {
                payload: seq![text_param("op"@, "window.minimize"@), ("window_id"@, ParamView::Number(p.window_id))],
            },
        ),
        ActionVariant::WindowMaximize(p) => Ok(
            StepView::Surface {
                payload: seq![text_param("op"@, "window.maximize"@), ("window_id"@, ParamView::Number(p.window_id))],
            },
        ),
        ActionVariant::WindowClose(p) => match p.window_id {
            Some(i) => Ok(
                StepView::Surface {
                    payload: seq![text_param("op"@, "window.close"@), ("window_id"@, ParamView::Number(i))],
                },
            ),
            None => match p.application_id {
                Some(app) => Ok(
                    StepView::Surface { payload: seq![text_param("op"@, "window.close"@), text_param("app_id"@, app@)] },
                ),
                None => Err("Window close requires ID or app_id"@),
            },
        },
        ActionVariant::FileList(p) => Ok(core_step("file.list"@, seq![text_param("path"@, p.path@)])),
        ActionVariant::FileRead(p) => Ok(core_step("file.read"@, seq![text_param("path"@, p.path@)])),
        ActionVariant::FileCreate(p) => Ok(
            core_step("file.create"@, seq![text_param("path"@, p.path@), opt_text_param("content"@, opt_view(p.content))]),
        ),
        ActionVariant::FileWrite(p) => Ok(
            core_step("file.write"@, seq![text_param("path"@, p.path@), text_param("content"@, p.content@)]),
        ),
        ActionVariant::FileSearch(p) => Ok(
            core_step("file.search"@, seq![text_param("query"@, p.query@), opt_text_param("path"@, opt_view(p.path))]),
        ),
        ActionVariant::FileRename(p) => Ok(
            core_step("file.rename"@, seq![text_param("from"@, p.from@), text_param("to"@, p.to@)]),
        ),
        ActionVariant::FileMove(p) => Ok(core_step("file.move"@, seq![text_param("from"@, p.from@), text_param("to"@, p.to@)])),
        ActionVariant::FileDelete(p) => Ok(core_step("file.delete"@, seq![text_param("path"@, p.path@)])),
        ActionVariant::ProcessList => Ok(core_step("process.list"@, seq![])),
        ActionVariant::ProcessInspect(p) => Ok(
            core_step(
                "process.inspect"@,
                seq![
                    opt_number_param("pid"@, p.pid),
                    opt_text_param("name"@, opt_view(p.name)),
                ],
            ),
        ),
        ActionVariant::NetworkStatus => Ok(core_step("network.status"@, seq![])),
        ActionVariant::NetworkInterfaces => Ok(core_step("network.interfaces"@, seq![])),
        ActionVariant::SystemStatus => Ok(core_step("status"@, seq![])),
        ActionVariant::SystemInfo => Ok(core_step("system.info"@, seq![])),
        ActionVariant::SystemResources => Ok(core_step("system.resources"@, seq![])),
        ActionVariant::SystemUptime => Ok(core_step("system.uptime"@, seq![])),
        ActionVariant::StorageStatus => Ok(core_step("storage.status"@, seq![])),
        ActionVariant::ContextGet => Ok(StepView::Local),
        _ => Err("no executor route for action '"@ + spec_action_name(v) + "'"@),
    }
}

/// The observation a reply to each action becomes: the application or
/// window acted on, the file operation with the reply, the listed windows
/// or processes, or the reply itself; an empty snapshot for a context
/// request.
pub open spec fn observation_matches(t: ObservationType, v: ActionVariant, response: serde_json::Value) -> bool {
    match v {
        ActionVariant::ApplicationLaunch(p) => t matches ObservationType::ApplicationStarted { application_id }
            && application_id@ == p.application_id@,
        ActionVariant::ApplicationClose(p) => t matches ObservationType::ApplicationClosed { application_id }
            && application_id@ == p.application_id@,
        ActionVariant::WindowList => t matches ObservationType::WindowList { windows } && windows == json_member(
            response,
            "windows"@,
        ),
        ActionVariant::WindowFocus(p) => t matches ObservationType::WindowFocused { window_id } && window_id == id_or_zero(
            p.window_id,
        ),
        ActionVariant::WindowMinimize(p) => t matches ObservationType::WindowMinimized { window_id } && window_id
            == p.window_id,
        ActionVariant::WindowMaximize(p) => t matches ObservationType::WindowMaximized { window_id } && window_id
            == p.window_id,
        ActionVariant::WindowClose(p) => t matches ObservationType::WindowClosed { window_id } && window_id == id_or_zero(
            p.window_id,
        ),
        ActionVariant::FileList(_) => t matches ObservationType::FilesystemResult { operation, data } && operation@
            == "list"@ && data == response,
        ActionVariant::FileRead(_) => t matches ObservationType::FilesystemResult { operation, data } && operation@
            == "read"@ && data == response,
        ActionVariant::FileCreate(_) => t matches ObservationType::FilesystemResult { operation, data } && operation@
            == "create"@ && data == response,
        ActionVariant::FileWrite(_) => t matches ObservationType::FilesystemResult { operation, data } && operation@
            == "write"@ && data == response,
        ActionVariant::FileSearch(_) => t matches ObservationType::FilesystemResult { operation, data } && operation@
            == "search"@ && data == response,
        ActionVariant::FileRename(_) => t matches ObservationType::FilesystemResult { operation, data } && operation@
            == "rename"@ && data == response,
        ActionVariant::FileMove(_) => t matches ObservationType::FilesystemResult { operation, data } && operation@
            == "move"@ && data == response,
        ActionVariant::FileDelete(_) => t matches ObservationType::FilesystemResult { operation, data } && operation@
            == "delete"@ && data == response,
        ActionVariant::ProcessList => t matches ObservationType::ProcessList { processes } && processes == json_member(
            response,
            "processes"@,
        ),
        ActionVariant::ProcessInspect(_) => t matches ObservationType::ProcessInspect { data } && data == response,
        ActionVariant::NetworkStatus => t matches ObservationType::NetworkStatus { data } && data == response,
        ActionVariant::NetworkInterfaces => t matches ObservationType::NetworkInterfaces { data } && data == response,
        ActionVariant::SystemStatus => t matches ObservationType::SystemStatus { data } && data == response,
        ActionVariant::SystemInfo => t matches ObservationType::SystemInfo { data } && data == response,
        ActionVariant::SystemResources => t matches ObservationType::SystemResources { data } && data == response,
        ActionVariant::SystemUptime => t matches ObservationType::SystemUptime { data } && data == response,
        ActionVariant::StorageStatus => t matches ObservationType::StorageStatus { data } && data == response,
        ActionVariant::ContextGet => t matches ObservationType::ContextSnapshot { data } && json_is_object(data) && forall|k: Seq<char>|
            json_field(data, k) is None,
        _ => t matches ObservationType::Error { message } && message@ == "no executor route for action '"@
            + spec_action_name(v) + "'"@,
    }
}

fn text(key: &str, s: &String) -> (r: (String, ParamValue))
    ensures
        (r.0@, r.1@) == text_param(key@, s@),
{
    (to_owned_string(key), ParamValue::Text(s.clone()))
}

fn opt_text(key: &str, s: &Option<String>) -> (r: (String, ParamValue))
    ensures
        (r.0@, r.1@) == opt_text_param(key@, opt_view(*s)),
{
    match s {
        Some(x) => (to_owned_string(key), ParamValue::Text(x.clone())),
        None => (to_owned_string(key), ParamValue::Null),
    }
}

fn number(key: &str, n: u64) -> (r: (String, ParamValue))
    ensures
        r.0@ == key@,
        r.1@ == ParamView::Number(n),
{
    (to_owned_string(key), ParamValue::Number(n))
}

fn core_command(command: &str, parameters: Vec<(String, ParamValue)>) -> (r: ExecutionStep)
    ensures
        r@ == core_step(command@, params_view(parameters@)),
{
    ExecutionStep::Control {
        service_id: to_owned_string(SYSTEM_CORE_SERVICE),
        command: to_owned_string(command),
        parameters,
    }
}

fn params1(a: (String, ParamValue)) -> (r: Vec<(String, ParamValue)>)
    ensures
        params_view(r@) == seq![(a.0@, a.1@)],
{
    let mut v: Vec<(String, ParamValue)> = Vec::new();
    v.push(a);
    proof {
        assert(params_view(v@) =~= seq![(a.0@, a.1@)]);
    }
    v
}

fn params2(a: (String, ParamValue), b: (String, ParamValue)) -> (r: Vec<(String, ParamValue)>)
    ensures
        params_view(r@) == seq![(a.0@, a.1@), (b.0@, b.1@)],
{
    let mut v: Vec<(String, ParamValue)> = Vec::new();
    v.push(a);
    v.push(b);
    proof {
        assert(params_view(v@) =~= seq![(a.0@, a.1@), (b.0@, b.1@)]);
    }
    v
}

fn no_params() -> (r: Vec<(String, ParamValue)>)
    ensures
        params_view(r@) == Seq::<(Seq<char>, ParamView)>::empty(),
{
    let v: Vec<(String, ParamValue)> = Vec::new();
    proof {
        assert(params_view(v@) =~= Seq::<(Seq<char>, ParamView)>::empty());
    }
    v
}

impl ActionExecutor {
    /// What executing `action` takes: the command and parameters to send,
    /// or the error when the action cannot be executed.
    pub fn plan(&self, action: &Action) -> (r: Result<ExecutionStep, AgentError>)
        ensures
            match r {
                Ok(step) => spec_execution_step(action.variant) == Ok::<StepView, Seq<char>>(step@),
                Err(e) => e matches AgentError::Execution(m) && spec_execution_step(action.variant) == Err::<
                    StepView,
                    Seq<char>,
                >(m@),
            },
    {
        let step = match &action.variant {
            ActionVariant::ApplicationLaunch(p) => core_command("app.launch", params1(text("app", &p.application_id))),
            ActionVariant::ApplicationClose(p) => core_command("app.close", params1(text("app", &p.application_id))),
            ActionVariant::WindowList => ExecutionStep::Surface {
                payload: params1(text("op", &String::from_str("window.list"))),
            },
            ActionVariant::WindowFocus(p) => {
                let id = match p.window_id {
                    Some(i) => i,
                    None => 0,
                };
                ExecutionStep::Surface {
                    payload: params2(text("op", &String::from_str("window.focus")), number("window_id", id)),
                }
            },
            ActionVariant::WindowMinimize(p) => ExecutionStep::Surface {
                payload: params2(text("op", &String::from_str("window.minimize")), number("window_id", p.window_id)),
            },
            ActionVariant::WindowMaximize(p) => ExecutionStep::Surface {
                payload: params2(text("op", &String::from_str("window.maximize")), number("window_id", p.window_id)),
            },
            ActionVariant::WindowClose(p) => match p.window_id {
                Some(i) => ExecutionStep::Surface {
                    payload: params2(text("op", &String::from_str("window.close")), number("window_id", i)),
                },
                None => match &p.application_id {
                    Some(app) => ExecutionStep::Surface {
                        payload: params2(text("op", &String::from_str("window.close")), text("app_id", app)),
                    },
                    None => {
                        return Err(AgentError::Execution(String::from_str("Window close requires ID or app_id")));
                    },
                },
            },
            ActionVariant::FileList(p) => core_command("file.list", params1(text("path", &p.path))),
            ActionVariant::FileRead(p) => core_command("file.read", params1(text("path", &p.path))),
            ActionVariant::FileCreate(p) => core_command("file.create", params2(text("path", &p.path), opt_text("content", &p.content))),
            ActionVariant::FileWrite(p) => core_command("file.write", params2(text("path", &p.path), text("content", &p.content))),
            ActionVariant::FileSearch(p) => core_command("file.search", params2(text("query", &p.query), opt_text("path", &p.path))),
            ActionVariant::FileRename(p) => core_command("file.rename", params2(text("from", &p.from), text("to", &p.to))),
            ActionVariant::FileMove(p) => core_command("file.move", params2(text("from", &p.from), text("to", &p.to))),
            ActionVariant::FileDelete(p) => core_command("file.delete", params1(text("path", &p.path))),
            ActionVariant::ProcessList => core_command("process.list", no_params()),
            ActionVariant::ProcessInspect(p) => {
                let pid = match p.pid {
                    Some(n) => (to_owned_string("pid"), ParamValue::Number(n as u64)),
                    None => (to_owned_string("pid"), ParamValue::Null),
                };
                core_command("process.inspect", params2(pid, opt_text("name", &p.name)))
            },
            ActionVariant::NetworkStatus => core_command("network.status", no_params()),
            ActionVariant::NetworkInterfaces => core_command("network.interfaces", no_params()),
            ActionVariant::SystemStatus => core_command("status", no_params()),
            ActionVariant::SystemInfo => core_command("system.info", no_params()),
            ActionVariant::SystemResources => core_command("system.resources", no_params()),
            ActionVariant::SystemUptime => core_command("system.uptime", no_params()),
            ActionVariant::StorageStatus => core_command("storage.status", no_params()),
            ActionVariant::ContextGet => ExecutionStep::Local,
            _ => {
                let mut m = String::from_str("no executor route for action '");
                m.append(variant_name(&action.variant));
                m.append("'");
                return Err(AgentError::Execution(m));
            },
        };
        Ok(step)
    }
}

/// The observation a reply to an action becomes.
pub fn observation_for(variant: &ActionVariant, response: &serde_json::Value) -> (r: ObservationType)
    ensures
        observation_matches(r, *variant, *response),
{
    match variant {
        ActionVariant::ApplicationLaunch(p) => ObservationType::ApplicationStarted { application_id: p.application_id.clone() },
        ActionVariant::ApplicationClose(p) => ObservationType::ApplicationClosed { application_id: p.application_id.clone() },
        ActionVariant::WindowList => ObservationType::WindowList { windows: value_member(response, "windows") },
        ActionVariant::WindowFocus(p) => ObservationType::WindowFocused {
            window_id: match p.window_id {
                Some(i) => i,
                None => 0,
            },
        },
        ActionVariant::WindowMinimize(p) => ObservationType::WindowMinimized { window_id: p.window_id },
        ActionVariant::WindowMaximize(p) => ObservationType::WindowMaximized { window_id: p.window_id },
        ActionVariant::WindowClose(p) => ObservationType::WindowClosed {
            window_id: match p.window_id {
                Some(i) => i,
                None => 0,
            },
        },
        ActionVariant::FileList(_) => ObservationType::FilesystemResult {
            operation: String::from_str("list"),
            data: response.clone(),
        },
        ActionVariant::FileRead(_) => ObservationType::FilesystemResult {
            operation: String::from_str("read"),
            data: response.clone(),
        },
        ActionVariant::FileCreate(_) => ObservationType::FilesystemResult {
            operation: String::from_str("create"),
            data: response.clone(),
        },
        ActionVariant::FileWrite(_) => ObservationType::FilesystemResult {
            operation: String::from_str("write"),
            data: response.clone(),
        },
        ActionVariant::FileSearch(_) => ObservationType::FilesystemResult {
            operation: String::from_str("search"),
            data: response.clone(),
        },
        ActionVariant::FileRename(_) => ObservationType::FilesystemResult {
            operation: String::from_str("rename"),
            data: response.clone(),
        },
        ActionVariant::FileMove(_) => ObservationType::FilesystemResult {
            operation: String::from_str("move"),
            data: response.clone(),
        },
        ActionVariant::FileDelete(_) => ObservationType::FilesystemResult {
            operation: String::from_str("delete"),
            data: response.clone(),
        },
        ActionVariant::ProcessList => ObservationType::ProcessList { processes: value_member(response, "processes") },
        ActionVariant::ProcessInspect(_) => ObservationType::ProcessInspect { data: response.clone() },
        ActionVariant::NetworkStatus => ObservationType::NetworkStatus { data: response.clone() },
        ActionVariant::NetworkInterfaces => ObservationType::NetworkInterfaces { data: response.clone() },
        ActionVariant::SystemStatus => ObservationType::SystemStatus { data: response.clone() },
        ActionVariant::SystemInfo => ObservationType::SystemInfo { data: response.clone() },
        ActionVariant::SystemResources => ObservationType::SystemResources { data: response.clone() },
        ActionVariant::SystemUptime => ObservationType::SystemUptime { data: response.clone() },
        ActionVariant::StorageStatus => ObservationType::StorageStatus { data: response.clone() },
        ActionVariant::ContextGet => ObservationType::ContextSnapshot { data: empty_object() },
        _ => {
            let mut m = String::from_str("no executor route for action '");
            m.append(variant_name(variant));
            m.append("'");
            ObservationType::Error { message: m }
        },
    }
}

/// The outcome of executing an action.
#[derive(Debug, Clone)]
pub struct ExecutionResult {
    /// Whether it succeeded.
    pub success: bool,
    /// What was observed.
    pub observation: Observation,
    /// How long it took, in milliseconds.
    pub duration_ms: u64,
}

/// `v` is the JSON form of a request parameter: a string for text, a
/// number for a number, `null` for no value.
pub open spec fn is_param_json(v: serde_json::Value, p: ParamView) -> bool {
    match p {
        ParamView::Text(t) => json_text(v) == Some(t),
        ParamView::Number(n) => json_u64(v) == Some(n),
        ParamView::Null => json_is_null(v),
    }
}

/// The value of the last parameter named `k`, if any.
pub open spec fn last_param(ps: Seq<(Seq<char>, ParamView)>, k: Seq<char>) -> Option<ParamView>
    decreases ps.len(),
{
    if ps.len() == 0 {
        None
    } else if ps.last().0 == k {
        Some(ps.last().1)
    } else {
        last_param(ps.drop_last(), k)
    }
}

/// `obj` is the JSON object of the parameters `ps`: one member per name,
/// holding the last value given under it.
pub open spec fn is_params_object(obj: serde_json::Value, ps: Seq<(Seq<char>, ParamView)>) -> bool {
    &&& json_is_object(obj)
    &&& forall|k: Seq<char>|
        match #[trigger] last_param(ps, k) {
            Some(p) => json_field(obj, k) matches Some(v) && is_param_json(v, p),
            None => json_field(obj, k) is None,
        }
}

/// The JSON form of one parameter.
fn param_json(p: &ParamValue) -> (r: serde_json::Value)
    ensures
        is_param_json(r, p@),
{
    match p {
        ParamValue::Text(t) => string_value(t.as_str()),
        ParamValue::Number(n) => number_value(*n),
        ParamValue::Null => null_value(),
    }
}

/// The JSON object of named parameters.
pub fn params_object(params: &Vec<(String, ParamValue)>) -> (r: serde_json::Value)
    ensures
        is_params_object(r, params_view(params@)),
{
    let mut obj = empty_object();
    let mut i: usize = 0;
    while i < params.len()
        invariant
            i <= params@.len(),
            is_params_object(obj, params_view(params@).take(i as int)),
        decreases params@.len() - i,
    {
        let ghost prev = params_view(params@).take(i as int);
        let ghost next = params_view(params@).take(i + 1);
        assert(next.drop_last() =~= prev);
        assert(next.last() == (params@[i as int].0@, params@[i as int].1@));
        let v = param_json(&params[i].1);
        let ghost obj0 = obj;
        obj = object_insert(obj, params[i].0.as_str(), v);
        assert forall|k: Seq<char>| #![trigger last_param(next, k)]
            match last_param(next, k) {
                Some(p) => json_field(obj, k) matches Some(w) && is_param_json(w, p),
                None => json_field(obj, k) is None,
            } by {
            if k != params@[i as int].0@ {
                assert(last_param(next, k) == last_param(prev, k));
            }
        }
        i += 1;
    }
    assert(params_view(params@).take(params@.len() as int) =~= params_view(params@));
    obj
}

/// The request a step sends: for a service command, an object of the
/// service id, the command and the parameters object; for the surface
/// server, the parameters object; nothing to send (an empty object) for a
/// local step.
pub open spec fn is_request_payload(r: serde_json::Value, step: StepView) -> bool {
    match step {
        StepView::Control { service_id, command, parameters } => {
            &&& json_is_object(r)
            &&& json_field(r, "service_id"@) matches Some(v) && json_text(v) == Some(service_id)
            &&& json_field(r, "command"@) matches Some(v) && json_text(v) == Some(command)
            &&& json_field(r, "parameters"@) matches Some(v) && is_params_object(v, parameters)
            &&& forall|k: Seq<char>|
                k != "service_id"@ && k != "command"@ && k != "parameters"@ ==> json_field(r, k) is None
        },
        StepView::Surface { payload } => is_params_object(r, payload),
        StepView::Local => json_is_object(r) && forall|k: Seq<char>| json_field(r, k) is None,
    }
}

/// The JSON request a step sends.
pub fn request_payload(step: &ExecutionStep) -> (r: serde_json::Value)
    ensures
        is_request_payload(r, step@),
{
    match step {
        ExecutionStep::Control { service_id, command, parameters } => {
            proof {
                reveal_strlit("service_id");
                reveal_strlit("command");
                reveal_strlit("parameters");
                assert("service_id"@[0] != "command"@[0]);
                assert("service_id"@[0] != "parameters"@[0]);
                assert("command"@[0] != "parameters"@[0]);
            }
            let p = params_object(parameters);
            let o0 = empty_object();
            let o1 = object_insert(o0, "service_id", string_value(service_id.as_str()));
            let o2 = object_insert(o1, "command", string_value(command.as_str()));
            let o3 = object_insert(o2, "parameters", p);
            assert(json_field(o3, "service_id"@) == json_field(o1, "service_id"@));
            assert(json_field(o3, "command"@) == json_field(o2, "command"@));
            assert forall|k: Seq<char>|
                k != "service_id"@ && k != "command"@ && k != "parameters"@ implies json_field(o3, k) is None by {
                assert(json_field(o0, k) is None);
            }
            o3
        },
        ExecutionStep::Surface { payload } => params_object(payload),
        ExecutionStep::Local => empty_object(),
    }
}

/// The message of an empty reply from a service: `empty response`, or
/// `empty <service> response` for a named one.
pub open spec fn empty_reply_message(service: Seq<char>) -> Seq<char> {
    if service.len() == 0 {
        "empty response"@
    } else {
        "empty "@ + service + " response"@
    }
}

/// What a reply line becomes: an IPC error for an empty line; else the
/// JSON value of the trimmed line, or an IPC error `decode: <reason>`.
pub open spec fn spec_decode_reply(line: Seq<char>, service: Seq<char>) -> Result<serde_json::Value, Seq<char>> {
    if line.len() == 0 {
        Err(empty_reply_message(service))
    } else {
        match json_parse(spec_trim(line)) {
            Ok(v) => Ok(v),
            Err(m) => Err("decode: "@ + m),
        }
    }
}

/// Decodes the line a service replied with.
pub fn decode_reply(line: &str, service: &str) -> (r: Result<serde_json::Value, AgentError>)
    ensures
        match r {
            Ok(v) => spec_decode_reply(line@, service@) == Ok::<serde_json::Value, Seq<char>>(v),
            Err(e) => e matches AgentError::Ipc(m) && spec_decode_reply(line@, service@) == Err::<
                serde_json::Value,
                Seq<char>,
            >(m@),
        },
{
    if line.unicode_len() == 0 {
        let m = if service.unicode_len() == 0 {
            String::from_str("empty response")
        } else {
            let mut m = String::from_str("empty ");
            m.append(service);
            m.append(" response");
            m
        };
        return Err(AgentError::Ipc(m));
    }
    let t = trim_string(line);
    match parse_json(t.as_str()) {
        Ok(v) => Ok(v),
        Err(e) => {
            let mut m = String::from_str("decode: ");
            m.append(e.as_str());
            Err(AgentError::Ipc(m))
        },
    }
}

} // verus!
