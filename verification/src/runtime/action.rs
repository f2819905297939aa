//! Actions: the typed operations the agent may ask the system to
//! perform. There is no variant that runs a shell command: every action is
//! one of a closed set, each with the capability it needs and its risk.
use vstd::prelude::*;

use crate::ids::{random_uuid, uuid_bits, uuid_string, uuid_text, uuid_value};
use crate::text::{strings_view, to_owned_string};

verus! {

/// A unique action identifier.
#[derive(Debug, Clone, Copy, PartialEq, Eq, Hash)]
pub struct ActionId(pub uuid::Uuid);

impl ActionId {
    /// A fresh random identifier.
    pub fn new() -> (r: ActionId) {
        ActionId(random_uuid())
    }

    /// The identifier's 128-bit value, which tells actions apart.
    pub closed spec fn spec_key(&self) -> u128 {
        uuid_value(self.0)
    }

    /// The identifier's 128-bit value.
    pub fn key(&self) -> (r: u128)
        ensures
            r == self.spec_key(),
    {
        uuid_bits(&self.0)
    }

    /// The identifier's text.
    pub closed spec fn spec_text(&self) -> Seq<char> {
        uuid_string(self.0)
    }

    /// The identifier in the hyphenated UUID format.
    pub fn to_string(&self) -> (r: String)
        ensures
            r@ == self.spec_text(),
    {
        uuid_text(&self.0)
    }
}

/// The name `Debug` gives each risk.
pub open spec fn spec_risk_debug_name(r: ActionRisk) -> Seq<char> {
    match r {
        ActionRisk::Low => "Low"@,
        ActionRisk::Medium => "Medium"@,
        ActionRisk::High => "High"@,
        ActionRisk::Critical => "Critical"@,
    }
}

/// The name of a risk as the host shows it, such as `High`.
pub fn risk_debug_name(r: ActionRisk) -> (s: &'static str)
    ensures
        s@ == spec_risk_debug_name(r),
{
    match r {
        ActionRisk::Low => "Low",
        ActionRisk::Medium => "Medium",
        ActionRisk::High => "High",
        ActionRisk::Critical => "Critical",
    }
}

impl Default for ActionId {
    fn default() -> (r: ActionId) {
        ActionId::new()
    }
}

/// The risk of an action, in increasing order.
#[derive(Debug, Clone, Copy, PartialEq, Eq, PartialOrd, Ord, Structural)]
pub enum ActionRisk {
    Low,
    Medium,
    High,
    Critical,
}

/// The parameters of a `ApplicationLaunch` action.
#[derive(Debug, Clone)]
pub struct ApplicationLaunchParams {
    /// The `application_id` parameter.
    pub application_id: String,
}

/// The parameters of a `ApplicationClose` action.
#[derive(Debug, Clone)]
pub struct ApplicationCloseParams {
    /// The `application_id` parameter.
    pub application_id: String,
}

/// The parameters of a `WindowFocus` action.
#[derive(Debug, Clone)]
pub struct WindowFocusParams {
    /// The `window_id` parameter.
    pub window_id: Option<u64>,
    /// The `application_id` parameter.
    pub application_id: Option<String>,
}

/// The parameters of a `WindowMinimize` action.
#[derive(Debug, Clone)]
pub struct WindowMinimizeParams {
    /// The `window_id` parameter.
    pub window_id: u64,
}

/// The parameters of a `WindowMaximize` action.
#[derive(Debug, Clone)]
pub struct WindowMaximizeParams {
    /// The `window_id` parameter.
    pub window_id: u64,
}

/// The parameters of a `WindowClose` action.
#[derive(Debug, Clone)]
pub struct WindowCloseParams {
    /// The `window_id` parameter.
    pub window_id: Option<u64>,
    /// The `application_id` parameter.
    pub application_id: Option<String>,
}

/// The parameters of a `FileList` action.
#[derive(Debug, Clone)]
pub struct FileListParams {
    /// The `path` parameter.
    pub path: String,
}

/// The parameters of a `FileRead` action.
#[derive(Debug, Clone)]
pub struct FileReadParams {
    /// The `path` parameter.
    pub path: String,
}

/// The parameters of a `FileCreate` action.
#[derive(Debug, Clone)]
pub struct FileCreateParams {
    /// The `path` parameter.
    pub path: String,
    /// The `content` parameter.
    pub content: Option<String>,
}

/// The parameters of a `FileWrite` action.
#[derive(Debug, Clone)]
pub struct FileWriteParams {
    /// The `path` parameter.
    pub path: String,
    /// The `content` parameter.
    pub content: String,
}

/// The parameters of a `FileSearch` action.
#[derive(Debug, Clone)]
pub struct FileSearchParams {
    /// The `query` parameter.
    pub query: String,
    /// The `path` parameter.
    pub path: Option<String>,
}

/// The parameters of a `FileRename` action.
#[derive(Debug, Clone)]
pub struct FileRenameParams {
    /// The `from` parameter.
    pub from: String,
    /// The `to` parameter.
    pub to: String,
}

/// The parameters of a `FileMove` action.
#[derive(Debug, Clone)]
pub struct FileMoveParams {
    /// The `from` parameter.
    pub from: String,
    /// The `to` parameter.
    pub to: String,
}

/// The parameters of a `FileDelete` action.
#[derive(Debug, Clone)]
pub struct FileDeleteParams {
    /// The `path` parameter.
    pub path: String,
}

/// The parameters of a `ProcessInspect` action.
#[derive(Debug, Clone)]
pub struct ProcessInspectParams {
    /// The `pid` parameter.
    pub pid: Option<u32>,
    /// The `name` parameter.
    pub name: Option<String>,
}

/// The parameters of a `ServiceRestart` action.
#[derive(Debug, Clone)]
pub struct ServiceRestartParams {
    /// The `service_id` parameter.
    pub service_id: String,
}

/// The parameters of a `DisplaySetBrightness` action.
#[derive(Debug, Clone)]
pub struct DisplaySetBrightnessParams {
    /// The `display_id` parameter.
    pub display_id: String,
    /// The `level` parameter.
    pub level: u8,
}

/// The parameters of a `DisplaySetResolution` action.
#[derive(Debug, Clone)]
pub struct DisplaySetResolutionParams {
    /// The `display_id` parameter.
    pub display_id: String,
    /// The `width` parameter.
    pub width: u32,
    /// The `height` parameter.
    pub height: u32,
}

/// The parameters of a `DeviceInspect` action.
#[derive(Debug, Clone)]
pub struct DeviceInspectParams {
    /// The `device_id` parameter.
    pub device_id: String,
}

/// The parameters of a `DeviceEnable` action.
#[derive(Debug, Clone)]
pub struct DeviceEnableParams {
    /// The `device_id` parameter.
    pub device_id: String,
}

/// The parameters of a `DeviceDisable` action.
#[derive(Debug, Clone)]
pub struct DeviceDisableParams {
    /// The `device_id` parameter.
    pub device_id: String,
}

/// The parameters of a `SystemReboot` action.
#[derive(Debug, Clone)]
pub struct SystemRebootParams {
    /// The `delay_ms` parameter.
    pub delay_ms: u64,
}

/// The parameters of a `SystemShutdown` action.
#[derive(Debug, Clone)]
pub struct SystemShutdownParams {
    /// The `delay_ms` parameter.
    pub delay_ms: u64,
}

/// The parameters of a `CredentialSeal` action.
#[derive(Debug, Clone)]
pub struct CredentialSealParams {
    /// The `name` parameter.
    pub name: String,
    /// The `plaintext` parameter.
    pub plaintext: String,
}

/// The parameters of a `CredentialUnseal` action.
#[derive(Debug, Clone)]
pub struct CredentialUnsealParams {
    /// The `name` parameter.
    pub name: String,
}

/// An action the agent may request. There is deliberately no shell or
/// command variant.
#[derive(Debug, Clone)]
pub enum ActionVariant {
    ApplicationLaunch(ApplicationLaunchParams),
    ApplicationClose(ApplicationCloseParams),
    WindowList,
    WindowFocus(WindowFocusParams),
    WindowMinimize(WindowMinimizeParams),
    WindowMaximize(WindowMaximizeParams),
    WindowClose(WindowCloseParams),
    FileList(FileListParams),
    FileRead(FileReadParams),
    FileCreate(FileCreateParams),
    FileWrite(FileWriteParams),
    FileSearch(FileSearchParams),
    FileRename(FileRenameParams),
    FileMove(FileMoveParams),
    FileDelete(FileDeleteParams),
    ProcessList,
    ProcessInspect(ProcessInspectParams),
    NetworkStatus,
    NetworkInterfaces,
    SystemStatus,
    SystemInfo,
    SystemResources,
    SystemUptime,
    ServiceRestart(ServiceRestartParams),
    StorageStatus,
    ContextGet,
    DisplayList,
    DisplaySetBrightness(DisplaySetBrightnessParams),
    DisplaySetResolution(DisplaySetResolutionParams),
    DeviceList,
    DeviceInspect(DeviceInspectParams),
    DeviceEnable(DeviceEnableParams),
    DeviceDisable(DeviceDisableParams),
    SystemReboot(SystemRebootParams),
    SystemShutdown(SystemShutdownParams),
    SystemSuspend,
    CredentialSeal(CredentialSealParams),
    CredentialUnseal(CredentialUnsealParams),
    PolicyReload,
}

/// The name of each action, which is also the capability it requests.
pub open spec fn spec_action_name(v: ActionVariant) -> Seq<char> {
    match v {
        ActionVariant::ApplicationLaunch(_) => "application.launch"@,
        ActionVariant::ApplicationClose(_) => "application.close"@,
        ActionVariant::WindowList => "window.list"@,
        ActionVariant::WindowFocus(_) => "window.focus"@,
        ActionVariant::WindowMinimize(_) => "window.minimize"@,
        ActionVariant::WindowMaximize(_) => "window.maximize"@,
        ActionVariant::WindowClose(_) => "window.close"@,
        ActionVariant::FileList(_) => "file.list"@,
        ActionVariant::FileRead(_) => "file.read"@,
        ActionVariant::FileCreate(_) => "file.create"@,
        ActionVariant::FileWrite(_) => "file.write"@,
        ActionVariant::FileSearch(_) => "file.search"@,
        ActionVariant::FileRename(_) => "file.rename"@,
        ActionVariant::FileMove(_) => "file.move"@,
        ActionVariant::FileDelete(_) => "file.delete"@,
        ActionVariant::ProcessList => "process.list"@,
        ActionVariant::ProcessInspect(_) => "process.inspect"@,
        ActionVariant::NetworkStatus => "network.status"@,
        ActionVariant::NetworkInterfaces => "network.interfaces"@,
        ActionVariant::SystemStatus => "system.status"@,
        ActionVariant::SystemInfo => "system.info"@,
        ActionVariant::SystemResources => "system.resources"@,
        ActionVariant::SystemUptime => "system.uptime"@,
        ActionVariant::ServiceRestart(_) => "service.restart"@,
        ActionVariant::StorageStatus => "storage.status"@,
        ActionVariant::ContextGet => "context.get"@,
        ActionVariant::DisplayList => "display.list"@,
        ActionVariant::DisplaySetBrightness(_) => "display.set_brightness"@,
        ActionVariant::DisplaySetResolution(_) => "display.set_resolution"@,
        ActionVariant::DeviceList => "device.list"@,
        ActionVariant::DeviceInspect(_) => "device.inspect"@,
        ActionVariant::DeviceEnable(_) => "device.enable"@,
        ActionVariant::DeviceDisable(_) => "device.disable"@,
        ActionVariant::SystemReboot(_) => "system.reboot"@,
        ActionVariant::SystemShutdown(_) => "system.shutdown"@,
        ActionVariant::SystemSuspend => "system.suspend"@,
        ActionVariant::CredentialSeal(_) => "credential.seal"@,
        ActionVariant::CredentialUnseal(_) => "credential.unseal"@,
        ActionVariant::PolicyReload => "policy.reload"@,
    }
}

/// The risk of each action.
pub open spec fn spec_action_risk(v: ActionVariant) -> ActionRisk {
    match v {
        ActionVariant::ApplicationLaunch(_) => ActionRisk::Medium,
        ActionVariant::ApplicationClose(_) => ActionRisk::Medium,
        ActionVariant::WindowList => ActionRisk::Low,
        ActionVariant::WindowFocus(_) => ActionRisk::Low,
        ActionVariant::WindowMinimize(_) => ActionRisk::Low,
        ActionVariant::WindowMaximize(_) => ActionRisk::Low,
        ActionVariant::WindowClose(_) => ActionRisk::Medium,
        ActionVariant::FileList(_) => ActionRisk::Low,
        ActionVariant::FileRead(_) => ActionRisk::Low,
        ActionVariant::FileCreate(_) => ActionRisk::Medium,
        ActionVariant::FileWrite(_) => ActionRisk::Medium,
        ActionVariant::FileSearch(_) => ActionRisk::Low,
        ActionVariant::FileRename(_) => ActionRisk::Medium,
        ActionVariant::FileMove(_) => ActionRisk::Medium,
        ActionVariant::FileDelete(_) => ActionRisk::High,
        ActionVariant::ProcessList => ActionRisk::Low,
        ActionVariant::ProcessInspect(_) => ActionRisk::Low,
        ActionVariant::NetworkStatus => ActionRisk::Low,
        ActionVariant::NetworkInterfaces => ActionRisk::Low,
        ActionVariant::SystemStatus => ActionRisk::Low,
        ActionVariant::SystemInfo => ActionRisk::Low,
        ActionVariant::SystemResources => ActionRisk::Low,
        ActionVariant::SystemUptime => ActionRisk::Low,
        ActionVariant::ServiceRestart(_) => ActionRisk::Medium,
        ActionVariant::StorageStatus => ActionRisk::Low,
        ActionVariant::ContextGet => ActionRisk::Low,
        ActionVariant::DisplayList => ActionRisk::Low,
        ActionVariant::DisplaySetBrightness(_) => ActionRisk::Low,
        ActionVariant::DisplaySetResolution(_) => ActionRisk::Medium,
        ActionVariant::DeviceList => ActionRisk::Low,
        ActionVariant::DeviceInspect(_) => ActionRisk::Low,
        ActionVariant::DeviceEnable(_) => ActionRisk::Medium,
        ActionVariant::DeviceDisable(_) => ActionRisk::Medium,
        ActionVariant::SystemReboot(_) => ActionRisk::Critical,
        ActionVariant::SystemShutdown(_) => ActionRisk::Critical,
        ActionVariant::SystemSuspend => ActionRisk::High,
        ActionVariant::CredentialSeal(_) => ActionRisk::High,
        ActionVariant::CredentialUnseal(_) => ActionRisk::High,
        ActionVariant::PolicyReload => ActionRisk::Medium,
    }
}

/// The name of an action, which is also the capability it requests.
pub fn variant_name(v: &ActionVariant) -> (r: &'static str)
    ensures
        r@ == spec_action_name(*v),
{
    match v {
        ActionVariant::ApplicationLaunch(_) => "application.launch",
        ActionVariant::ApplicationClose(_) => "application.close",
        ActionVariant::WindowList => "window.list",
        ActionVariant::WindowFocus(_) => "window.focus",
        ActionVariant::WindowMinimize(_) => "window.minimize",
        ActionVariant::WindowMaximize(_) => "window.maximize",
        ActionVariant::WindowClose(_) => "window.close",
        ActionVariant::FileList(_) => "file.list",
        ActionVariant::FileRead(_) => "file.read",
        ActionVariant::FileCreate(_) => "file.create",
        ActionVariant::FileWrite(_) => "file.write",
        ActionVariant::FileSearch(_) => "file.search",
        ActionVariant::FileRename(_) => "file.rename",
        ActionVariant::FileMove(_) => "file.move",
        ActionVariant::FileDelete(_) => "file.delete",
        ActionVariant::ProcessList => "process.list",
        ActionVariant::ProcessInspect(_) => "process.inspect",
        ActionVariant::NetworkStatus => "network.status",
        ActionVariant::NetworkInterfaces => "network.interfaces",
        ActionVariant::SystemStatus => "system.status",
        ActionVariant::SystemInfo => "system.info",
        ActionVariant::SystemResources => "system.resources",
        ActionVariant::SystemUptime => "system.uptime",
        ActionVariant::ServiceRestart(_) => "service.restart",
        ActionVariant::StorageStatus => "storage.status",
        ActionVariant::ContextGet => "context.get",
        ActionVariant::DisplayList => "display.list",
        ActionVariant::DisplaySetBrightness(_) => "display.set_brightness",
        ActionVariant::DisplaySetResolution(_) => "display.set_resolution",
        ActionVariant::DeviceList => "device.list",
        ActionVariant::DeviceInspect(_) => "device.inspect",
        ActionVariant::DeviceEnable(_) => "device.enable",
        ActionVariant::DeviceDisable(_) => "device.disable",
        ActionVariant::SystemReboot(_) => "system.reboot",
        ActionVariant::SystemShutdown(_) => "system.shutdown",
        ActionVariant::SystemSuspend => "system.suspend",
        ActionVariant::CredentialSeal(_) => "credential.seal",
        ActionVariant::CredentialUnseal(_) => "credential.unseal",
        ActionVariant::PolicyReload => "policy.reload",
    }
}

/// The risk of an action.
pub fn variant_risk(v: &ActionVariant) -> (r: ActionRisk)
    ensures
        r == spec_action_risk(*v),
{
    match v {
        ActionVariant::ApplicationLaunch(_) => ActionRisk::Medium,
        ActionVariant::ApplicationClose(_) => ActionRisk::Medium,
        ActionVariant::WindowList => ActionRisk::Low,
        ActionVariant::WindowFocus(_) => ActionRisk::Low,
        ActionVariant::WindowMinimize(_) => ActionRisk::Low,
        ActionVariant::WindowMaximize(_) => ActionRisk::Low,
        ActionVariant::WindowClose(_) => ActionRisk::Medium,
        ActionVariant::FileList(_) => ActionRisk::Low,
        ActionVariant::FileRead(_) => ActionRisk::Low,
        ActionVariant::FileCreate(_) => ActionRisk::Medium,
        ActionVariant::FileWrite(_) => ActionRisk::Medium,
        ActionVariant::FileSearch(_) => ActionRisk::Low,
        ActionVariant::FileRename(_) => ActionRisk::Medium,
        ActionVariant::FileMove(_) => ActionRisk::Medium,
        ActionVariant::FileDelete(_) => ActionRisk::High,
        ActionVariant::ProcessList => ActionRisk::Low,
        ActionVariant::ProcessInspect(_) => ActionRisk::Low,
        ActionVariant::NetworkStatus => ActionRisk::Low,
        ActionVariant::NetworkInterfaces => ActionRisk::Low,
        ActionVariant::SystemStatus => ActionRisk::Low,
        ActionVariant::SystemInfo => ActionRisk::Low,
        ActionVariant::SystemResources => ActionRisk::Low,
        ActionVariant::SystemUptime => ActionRisk::Low,
        ActionVariant::ServiceRestart(_) => ActionRisk::Medium,
        ActionVariant::StorageStatus => ActionRisk::Low,
        ActionVariant::ContextGet => ActionRisk::Low,
        ActionVariant::DisplayList => ActionRisk::Low,
        ActionVariant::DisplaySetBrightness(_) => ActionRisk::Low,
        ActionVariant::DisplaySetResolution(_) => ActionRisk::Medium,
        ActionVariant::DeviceList => ActionRisk::Low,
        ActionVariant::DeviceInspect(_) => ActionRisk::Low,
        ActionVariant::DeviceEnable(_) => ActionRisk::Medium,
        ActionVariant::DeviceDisable(_) => ActionRisk::Medium,
        ActionVariant::SystemReboot(_) => ActionRisk::Critical,
        ActionVariant::SystemShutdown(_) => ActionRisk::Critical,
        ActionVariant::SystemSuspend => ActionRisk::High,
        ActionVariant::CredentialSeal(_) => ActionRisk::High,
        ActionVariant::CredentialUnseal(_) => ActionRisk::High,
        ActionVariant::PolicyReload => ActionRisk::Medium,
    }
}

/// The capabilities an action requests and its risk: the single
/// capability named like the action.
pub fn classify_action(variant: &ActionVariant) -> (r: (Vec<String>, ActionRisk))
    ensures
        strings_view(r.0@) == seq![spec_action_name(*variant)],
        r.1 == spec_action_risk(*variant),
{
    let mut caps: Vec<String> = Vec::new();
    caps.push(to_owned_string(variant_name(variant)));
    assert(strings_view(caps@) =~= seq![spec_action_name(*variant)]);
    (caps, variant_risk(variant))
}

/// A requested action.
#[derive(Debug, Clone)]
pub struct Action {
    /// The action's identifier.
    pub id: ActionId,
    /// The session that requested it.
    pub session_id: String,
    /// What to do.
    pub variant: ActionVariant,
    /// The capabilities it needs.
    pub requested_capabilities: Vec<String>,
    /// Its risk.
    pub risk_level: ActionRisk,
    /// Why it was requested.
    pub reason: String,
    /// The time limit in milliseconds.
    pub timeout_ms: u64,
}

impl Action {
    /// A new action, classified: it requests the capability named like the
    /// action, carries the action's risk, and has a 30 s time limit.
    pub fn new(session_id: &str, variant: ActionVariant, reason: &str) -> (r: Action)
        ensures
            r.session_id@ == session_id@,
            r.variant == variant,
            strings_view(r.requested_capabilities@) == seq![spec_action_name(variant)],
            r.risk_level == spec_action_risk(variant),
            r.reason@ == reason@,
            r.timeout_ms == 30_000,
    {
        let (caps, risk) = classify_action(&variant);
        Action {
            id: ActionId::new(),
            session_id: to_owned_string(session_id),
            variant,
            requested_capabilities: caps,
            risk_level: risk,
            reason: to_owned_string(reason),
            timeout_ms: 30_000,
        }
    }

    /// The same action with another time limit.
    pub fn with_timeout(self, ms: u64) -> (r: Action)
        ensures
            r == (Action { timeout_ms: ms, ..self }),
    {
        let mut r = self;
        r.timeout_ms = ms;
        r
    }

    /// The same action with another risk level.
    pub fn with_risk_level(self, level: ActionRisk) -> (r: Action)
        ensures
            r == (Action { risk_level: level, ..self }),
    {
        let mut r = self;
        r.risk_level = level;
        r
    }

    /// The action's name, such as `file.read`.
    pub fn action_name(&self) -> (r: &'static str)
        ensures
            r@ == spec_action_name(self.variant),
    {
        variant_name(&self.variant)
    }
}

/// Powering off, rebooting and shutting down are critical; suspending and
/// handling credentials are high risk; reading and listing is low risk.
pub proof fn law_action_risk_classes(v: ActionVariant)
    ensures
        (v is SystemReboot || v is SystemShutdown) ==> spec_action_risk(v) == ActionRisk::Critical,
        (v is SystemSuspend || v is CredentialSeal || v is CredentialUnseal || v is FileDelete)
            ==> spec_action_risk(v) == ActionRisk::High,
        (v is FileRead || v is FileList || v is FileSearch || v is ProcessList || v is WindowList)
            ==> spec_action_risk(v) == ActionRisk::Low,
{
}

} // verus!
