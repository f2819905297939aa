//! The intent model: what the agent recognised a request to ask for.
//!
//! The model may propose intents, but their risk levels are assigned by
//! trusted code, never by the model.
use vstd::prelude::*;

use crate::ids::random_uuid;
use crate::text::{str_eq, to_owned_string};

verus! {

/// A unique intent identifier.
#[derive(Debug, Clone, Copy, PartialEq, Eq, Hash)]
pub struct IntentId(uuid::Uuid);

impl View for IntentId {
    type V = uuid::Uuid;

    closed spec fn view(&self) -> uuid::Uuid {
        self.0
    }
}

impl IntentId {
    /// A fresh random identifier.
    pub fn new() -> (r: IntentId) {
        IntentId(random_uuid())
    }

    /// The identifier's UUID.
    pub fn as_uuid(&self) -> (r: uuid::Uuid)
        ensures
            r == self@,
    {
        self.0
    }
}

impl Default for IntentId {
    fn default() -> (r: IntentId) {
        IntentId::new()
    }
}

/// The kinds of intent the agent recognises.
#[derive(Debug, Clone, Copy, PartialEq, Eq, Structural)]
pub enum IntentType {
    ApplicationLaunch,
    ApplicationClose,
    ApplicationStatus,
    ApplicationList,
    WindowList,
    WindowFocus,
    WindowMinimize,
    WindowMaximize,
    WindowClose,
    FileList,
    FileRead,
    FileCreate,
    FileWrite,
    FileSearch,
    FileRename,
    FileMove,
    FileDelete,
    ProcessList,
    ProcessInspect,
    NetworkStatus,
    NetworkInterfaces,
    SystemStatus,
    SystemInfo,
    SystemResources,
    SystemUptime,
    StorageStatus,
    ContextGet,
    Chat,
}

/// The slug of each intent type, such as `application.launch`.
pub open spec fn spec_intent_slug(t: IntentType) -> Seq<char> {
    match t {
        IntentType::ApplicationLaunch => "application.launch"@,
        IntentType::ApplicationClose => "application.close"@,
        IntentType::ApplicationStatus => "application.status"@,
        IntentType::ApplicationList => "application.list"@,
        IntentType::WindowList => "window.list"@,
        IntentType::WindowFocus => "window.focus"@,
        IntentType::WindowMinimize => "window.minimize"@,
        IntentType::WindowMaximize => "window.maximize"@,
        IntentType::WindowClose => "window.close"@,
        IntentType::FileList => "file.list"@,
        IntentType::FileRead => "file.read"@,
        IntentType::FileCreate => "file.create"@,
        IntentType::FileWrite => "file.write"@,
        IntentType::FileSearch => "file.search"@,
        IntentType::FileRename => "file.rename"@,
        IntentType::FileMove => "file.move"@,
        IntentType::FileDelete => "file.delete"@,
        IntentType::ProcessList => "process.list"@,
        IntentType::ProcessInspect => "process.inspect"@,
        IntentType::NetworkStatus => "network.status"@,
        IntentType::NetworkInterfaces => "network.interfaces"@,
        IntentType::SystemStatus => "system.status"@,
        IntentType::SystemInfo => "system.info"@,
        IntentType::SystemResources => "system.resources"@,
        IntentType::SystemUptime => "system.uptime"@,
        IntentType::StorageStatus => "storage.status"@,
        IntentType::ContextGet => "context.get"@,
        IntentType::Chat => "chat"@,
    }
}

/// Every intent type, in declaration order.
pub open spec fn spec_all_types() -> Seq<IntentType> {
    seq![
        IntentType::ApplicationLaunch,
        IntentType::ApplicationClose,
        IntentType::ApplicationStatus,
        IntentType::ApplicationList,
        IntentType::WindowList,
        IntentType::WindowFocus,
        IntentType::WindowMinimize,
        IntentType::WindowMaximize,
        IntentType::WindowClose,
        IntentType::FileList,
        IntentType::FileRead,
        IntentType::FileCreate,
        IntentType::FileWrite,
        IntentType::FileSearch,
        IntentType::FileRename,
        IntentType::FileMove,
        IntentType::FileDelete,
        IntentType::ProcessList,
        IntentType::ProcessInspect,
        IntentType::NetworkStatus,
        IntentType::NetworkInterfaces,
        IntentType::SystemStatus,
        IntentType::SystemInfo,
        IntentType::SystemResources,
        IntentType::SystemUptime,
        IntentType::StorageStatus,
        IntentType::ContextGet,
        IntentType::Chat,
    ]
}

/// The slugs of every intent type, in declaration order.
pub open spec fn spec_all_slugs() -> Seq<Seq<char>> {
    spec_all_types().map_values(|t: IntentType| spec_intent_slug(t))
}

/// Where an intent type stands in the declaration order.
spec fn spec_type_position(t: IntentType) -> int {
    match t {
        IntentType::ApplicationLaunch => 0,
        IntentType::ApplicationClose => 1,
        IntentType::ApplicationStatus => 2,
        IntentType::ApplicationList => 3,
        IntentType::WindowList => 4,
        IntentType::WindowFocus => 5,
        IntentType::WindowMinimize => 6,
        IntentType::WindowMaximize => 7,
        IntentType::WindowClose => 8,
        IntentType::FileList => 9,
        IntentType::FileRead => 10,
        IntentType::FileCreate => 11,
        IntentType::FileWrite => 12,
        IntentType::FileSearch => 13,
        IntentType::FileRename => 14,
        IntentType::FileMove => 15,
        IntentType::FileDelete => 16,
        IntentType::ProcessList => 17,
        IntentType::ProcessInspect => 18,
        IntentType::NetworkStatus => 19,
        IntentType::NetworkInterfaces => 20,
        IntentType::SystemStatus => 21,
        IntentType::SystemInfo => 22,
        IntentType::SystemResources => 23,
        IntentType::SystemUptime => 24,
        IntentType::StorageStatus => 25,
        IntentType::ContextGet => 26,
        IntentType::Chat => 27,
    }
}

/// Each slug names exactly one intent type: no two types share a slug.
pub proof fn law_slugs_are_distinct(a: IntentType, b: IntentType)
    ensures
        spec_intent_slug(a) == spec_intent_slug(b) ==> a == b,
{
    reveal_strlit("application.launch");
    assert("application.launch"@.len() == 18);
    reveal_strlit("application.close");
    assert("application.close"@.len() == 17);
    reveal_strlit("application.status");
    assert("application.status"@.len() == 18);
    reveal_strlit("application.list");
    assert("application.list"@.len() == 16);
    reveal_strlit("window.list");
    assert("window.list"@.len() == 11);
    reveal_strlit("window.focus");
    assert("window.focus"@.len() == 12);
    reveal_strlit("window.minimize");
    assert("window.minimize"@.len() == 15);
    reveal_strlit("window.maximize");
    assert("window.maximize"@.len() == 15);
    reveal_strlit("window.close");
    assert("window.close"@.len() == 12);
    reveal_strlit("file.list");
    assert("file.list"@.len() == 9);
    reveal_strlit("file.read");
    assert("file.read"@.len() == 9);
    reveal_strlit("file.create");
    assert("file.create"@.len() == 11);
    reveal_strlit("file.write");
    assert("file.write"@.len() == 10);
    reveal_strlit("file.search");
    assert("file.search"@.len() == 11);
    reveal_strlit("file.rename");
    assert("file.rename"@.len() == 11);
    reveal_strlit("file.move");
    assert("file.move"@.len() == 9);
    reveal_strlit("file.delete");
    assert("file.delete"@.len() == 11);
    reveal_strlit("process.list");
    assert("process.list"@.len() == 12);
    reveal_strlit("process.inspect");
    assert("process.inspect"@.len() == 15);
    reveal_strlit("network.status");
    assert("network.status"@.len() == 14);
    reveal_strlit("network.interfaces");
    assert("network.interfaces"@.len() == 18);
    reveal_strlit("system.status");
    assert("system.status"@.len() == 13);
    reveal_strlit("system.info");
    assert("system.info"@.len() == 11);
    reveal_strlit("system.resources");
    assert("system.resources"@.len() == 16);
    reveal_strlit("system.uptime");
    assert("system.uptime"@.len() == 13);
    reveal_strlit("storage.status");
    assert("storage.status"@.len() == 14);
    reveal_strlit("context.get");
    assert("context.get"@.len() == 11);
    reveal_strlit("chat");
    assert("chat"@.len() == 4);
    assert("application.launch"@[12] != "application.status"@[12]);
    assert("application.launch"@[0] != "network.interfaces"@[0]);
    assert("application.status"@[0] != "network.interfaces"@[0]);
    assert("application.list"@[0] != "system.resources"@[0]);
    assert("window.list"@[0] != "file.create"@[0]);
    assert("window.list"@[0] != "file.search"@[0]);
    assert("window.list"@[0] != "file.rename"@[0]);
    assert("window.list"@[0] != "file.delete"@[0]);
    assert("window.list"@[0] != "system.info"@[0]);
    assert("window.list"@[0] != "context.get"@[0]);
    assert("window.focus"@[7] != "window.close"@[7]);
    assert("window.focus"@[0] != "process.list"@[0]);
    assert("window.minimize"@[8] != "window.maximize"@[8]);
    assert("window.minimize"@[0] != "process.inspect"@[0]);
    assert("window.maximize"@[0] != "process.inspect"@[0]);
    assert("window.close"@[0] != "process.list"@[0]);
    assert("file.list"@[5] != "file.read"@[5]);
    assert("file.list"@[5] != "file.move"@[5]);
    assert("file.read"@[5] != "file.move"@[5]);
    assert("file.create"@[5] != "file.search"@[5]);
    assert("file.create"@[5] != "file.rename"@[5]);
    assert("file.create"@[5] != "file.delete"@[5]);
    assert("file.create"@[0] != "system.info"@[0]);
    assert("file.create"@[0] != "context.get"@[0]);
    assert("file.search"@[5] != "file.rename"@[5]);
    assert("file.search"@[5] != "file.delete"@[5]);
    assert("file.search"@[0] != "system.info"@[0]);
    assert("file.search"@[0] != "context.get"@[0]);
    assert("file.rename"@[5] != "file.delete"@[5]);
    assert("file.rename"@[0] != "system.info"@[0]);
    assert("file.rename"@[0] != "context.get"@[0]);
    assert("file.delete"@[0] != "system.info"@[0]);
    assert("file.delete"@[0] != "context.get"@[0]);
    assert("network.status"@[0] != "storage.status"@[0]);
    assert("system.status"@[7] != "system.uptime"@[7]);
    assert("system.info"@[0] != "context.get"@[0]);
}

/// A string is one of the listed slugs exactly when it is the slug of
/// some intent type.
pub proof fn law_listed_slugs(s: Seq<char>)
    ensures
        spec_all_slugs().contains(s) <==> exists|t: IntentType| spec_intent_slug(t) == s,
{
    if spec_all_slugs().contains(s) {
        let i = choose|i: int| 0 <= i < spec_all_slugs().len() && spec_all_slugs()[i] == s;
        assert(spec_intent_slug(spec_all_types()[i]) == s);
    }
    if exists|t: IntentType| spec_intent_slug(t) == s {
        let t = choose|t: IntentType| spec_intent_slug(t) == s;
        let i = spec_type_position(t);
        assert(spec_all_types()[i] == t);
        assert(spec_all_slugs()[i] == s);
    }
}

impl IntentType {
    /// The slug of the intent type.
    pub fn as_str(&self) -> (r: &'static str)
        ensures
            r@ == spec_intent_slug(*self),
    {
        match self {
            IntentType::ApplicationLaunch => "application.launch",
            IntentType::ApplicationClose => "application.close",
            IntentType::ApplicationStatus => "application.status",
            IntentType::ApplicationList => "application.list",
            IntentType::WindowList => "window.list",
            IntentType::WindowFocus => "window.focus",
            IntentType::WindowMinimize => "window.minimize",
            IntentType::WindowMaximize => "window.maximize",
            IntentType::WindowClose => "window.close",
            IntentType::FileList => "file.list",
            IntentType::FileRead => "file.read",
            IntentType::FileCreate => "file.create",
            IntentType::FileWrite => "file.write",
            IntentType::FileSearch => "file.search",
            IntentType::FileRename => "file.rename",
            IntentType::FileMove => "file.move",
            IntentType::FileDelete => "file.delete",
            IntentType::ProcessList => "process.list",
            IntentType::ProcessInspect => "process.inspect",
            IntentType::NetworkStatus => "network.status",
            IntentType::NetworkInterfaces => "network.interfaces",
            IntentType::SystemStatus => "system.status",
            IntentType::SystemInfo => "system.info",
            IntentType::SystemResources => "system.resources",
            IntentType::SystemUptime => "system.uptime",
            IntentType::StorageStatus => "storage.status",
            IntentType::ContextGet => "context.get",
            IntentType::Chat => "chat",
        }
    }

    /// The slug of the intent type, as an owned string.
    pub fn to_string(&self) -> (r: String)
        ensures
            r@ == spec_intent_slug(*self),
    {
        to_owned_string(self.as_str())
    }

    /// The intent type of a slug such as `application.launch`; `None` for
    /// a string that is no slug.
    pub fn from_str(s: &str) -> (r: Option<IntentType>)
        ensures
            forall|t: IntentType| r == Some(t) <==> spec_intent_slug(t) == s@,
            r is Some <==> spec_all_slugs().contains(s@),
    {
        let r = Self::match_slug(s);
        proof {
            law_listed_slugs(s@);
            if let Some(t) = r {
                assert forall|u: IntentType| spec_intent_slug(u) == s@ implies u == t by {
                    law_slugs_are_distinct(u, t);
                }
            }
        }
        r
    }

    /// The first intent type whose slug is `s`, tried in declaration order.
    fn match_slug(s: &str) -> (r: Option<IntentType>)
        ensures
            r matches Some(t) ==> spec_intent_slug(t) == s@,
            r is None ==> forall|t: IntentType| spec_intent_slug(t) != s@,
    {
        if str_eq(s, "application.launch") {
            return Some(IntentType::ApplicationLaunch);
        }
        if str_eq(s, "application.close") {
            return Some(IntentType::ApplicationClose);
        }
        if str_eq(s, "application.status") {
            return Some(IntentType::ApplicationStatus);
        }
        if str_eq(s, "application.list") {
            return Some(IntentType::ApplicationList);
        }
        if str_eq(s, "window.list") {
            return Some(IntentType::WindowList);
        }
        if str_eq(s, "window.focus") {
            return Some(IntentType::WindowFocus);
        }
        if str_eq(s, "window.minimize") {
            return Some(IntentType::WindowMinimize);
        }
        if str_eq(s, "window.maximize") {
            return Some(IntentType::WindowMaximize);
        }
        if str_eq(s, "window.close") {
            return Some(IntentType::WindowClose);
        }
        if str_eq(s, "file.list") {
            return Some(IntentType::FileList);
        }
        if str_eq(s, "file.read") {
            return Some(IntentType::FileRead);
        }
        if str_eq(s, "file.create") {
            return Some(IntentType::FileCreate);
        }
        if str_eq(s, "file.write") {
            return Some(IntentType::FileWrite);
        }
        if str_eq(s, "file.search") {
            return Some(IntentType::FileSearch);
        }
        if str_eq(s, "file.rename") {
            return Some(IntentType::FileRename);
        }
        if str_eq(s, "file.move") {
            return Some(IntentType::FileMove);
        }
        if str_eq(s, "file.delete") {
            return Some(IntentType::FileDelete);
        }
        if str_eq(s, "process.list") {
            return Some(IntentType::ProcessList);
        }
        if str_eq(s, "process.inspect") {
            return Some(IntentType::ProcessInspect);
        }
        if str_eq(s, "network.status") {
            return Some(IntentType::NetworkStatus);
        }
        if str_eq(s, "network.interfaces") {
            return Some(IntentType::NetworkInterfaces);
        }
        if str_eq(s, "system.status") {
            return Some(IntentType::SystemStatus);
        }
        if str_eq(s, "system.info") {
            return Some(IntentType::SystemInfo);
        }
        if str_eq(s, "system.resources") {
            return Some(IntentType::SystemResources);
        }
        if str_eq(s, "system.uptime") {
            return Some(IntentType::SystemUptime);
        }
        if str_eq(s, "storage.status") {
            return Some(IntentType::StorageStatus);
        }
        if str_eq(s, "context.get") {
            return Some(IntentType::ContextGet);
        }
        if str_eq(s, "chat") {
            return Some(IntentType::Chat);
        }
        None
    }

    /// Every valid slug, in declaration order.
    pub fn all_slugs() -> (r: &'static [&'static str])
        ensures
            r@.map_values(|s: &str| s@) == spec_all_slugs(),
    {
        let r: &'static [&'static str] = &[
            "application.launch",
            "application.close",
            "application.status",
            "application.list",
            "window.list",
            "window.focus",
            "window.minimize",
            "window.maximize",
            "window.close",
            "file.list",
            "file.read",
            "file.create",
            "file.write",
            "file.search",
            "file.rename",
            "file.move",
            "file.delete",
            "process.list",
            "process.inspect",
            "network.status",
            "network.interfaces",
            "system.status",
            "system.info",
            "system.resources",
            "system.uptime",
            "storage.status",
            "context.get",
            "chat"
        ];
        assert(r@.map_values(|s: &str| s@) =~= spec_all_slugs());
        r
    }
}

/// The confidence of an intent classification, in percent.
#[derive(Debug, Clone, Copy, PartialEq, Eq, PartialOrd, Ord, Structural)]
pub struct Confidence(pub u8);

impl Confidence {
    /// 25%.
    pub fn low() -> (r: Confidence)
        ensures
            r == Confidence(25),
    {
        Confidence(25)
    }

    /// 50%.
    pub fn medium() -> (r: Confidence)
        ensures
            r == Confidence(50),
    {
        Confidence(50)
    }

    /// 75%.
    pub fn high() -> (r: Confidence)
        ensures
            r == Confidence(75),
    {
        Confidence(75)
    }

    /// 100%.
    pub fn certain() -> (r: Confidence)
        ensures
            r == Confidence(100),
    {
        Confidence(100)
    }
}

/// The risk level of an intent, assigned by trusted code.
#[derive(Debug, Clone, Copy, PartialEq, Eq, PartialOrd, Ord, Structural)]
pub enum RiskLevel {
    Low,
    Medium,
    High,
    Critical,
}

/// A structured intent extracted from a user request.
#[derive(Debug, Clone)]
pub struct Intent {
    /// The intent's identifier.
    pub id: IntentId,
    /// The request it was extracted from.
    pub request_id: String,
    /// What the request asks for.
    pub intent_type: IntentType,
    /// How sure the classification is.
    pub confidence: Confidence,
    /// The entities named by the request.
    pub entities: serde_json::Value,
    /// Constraints on the intent.
    pub constraints: Vec<String>,
    /// The risk level, assigned by trusted code.
    pub risk_level: RiskLevel,
    /// The model's reason for the classification (empty for
    /// deterministic sources).
    pub reason: String,
}

impl Intent {
    /// A new intent of low risk, with no constraints and no reason.
    pub fn new(
        request_id: &str,
        intent_type: IntentType,
        confidence: Confidence,
        entities: serde_json::Value,
    ) -> (r: Intent)
        ensures
            r.request_id@ == request_id@,
            r.intent_type == intent_type,
            r.confidence == confidence,
            r.entities == entities,
            r.constraints@.len() == 0,
            r.risk_level == RiskLevel::Low,
            r.reason@.len() == 0,
    {
        Intent {
            id: IntentId::new(),
            request_id: to_owned_string(request_id),
            intent_type,
            confidence,
            entities,
            constraints: Vec::new(),
            risk_level: RiskLevel::Low,
            reason: String::new(),
        }
    }

    /// The same intent with the given risk level.
    pub fn with_risk_level(self, level: RiskLevel) -> (r: Intent)
        ensures
            r == (Intent { risk_level: level, ..self }),
    {
        let mut r = self;
        r.risk_level = level;
        r
    }

    /// The same intent with the given reason.
    pub fn with_reason(self, reason: String) -> (r: Intent)
        ensures
            r == (Intent { reason, ..self }),
    {
        let mut r = self;
        r.reason = reason;
        r
    }

    /// Checks the intent: it must reference a request.
    pub fn validate(&self) -> (r: Result<(), String>)
        ensures
            r is Ok <==> self.request_id@.len() > 0,
            r matches Err(m) ==> m@ == "Intent must reference a request ID"@,
    {
        if self.request_id.as_str().is_empty() {
            return Err(String::from_str("Intent must reference a request ID"));
        }
        Ok(())
    }
}

} // verus!
