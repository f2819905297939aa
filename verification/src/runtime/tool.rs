//! Tools: the operations the agent can invoke, their definitions, and
//! the registry that holds them.
use vstd::prelude::*;

use crate::json::{
    json_field, json_items, json_text, json_is_object, value_field, value_items, value_text, empty_object,
    string_value, array_value, object_with,
};
use crate::text::{str_eq, strings_view, to_owned_string};

verus! {

/// A tool identifier, such as `filesystem.list`.
#[derive(Debug, Clone, PartialEq, Eq, Hash)]
pub struct ToolId(pub String);

impl ToolId {
    /// The identifier `id`.
    pub fn new(id: &str) -> (r: ToolId)
        ensures
            r.0@ == id@,
    {
        ToolId(to_owned_string(id))
    }

    /// The identifier's text.
    pub fn to_string(&self) -> (r: String)
        ensures
            r@ == self.0@,
    {
        self.0.clone()
    }
}

/// The risk of a tool, in increasing order.
#[derive(Debug, Clone, Copy, PartialEq, Eq, PartialOrd, Ord, Structural)]
pub enum ToolRisk {
    Low,
    Medium,
    High,
    Critical,
}

/// The definition of a tool.
#[derive(Debug, Clone)]
pub struct ToolDefinition {
    /// The tool's identifier.
    pub id: ToolId,
    /// The display name.
    pub name: String,
    /// What the tool does.
    pub description: String,
    /// The schema of its input.
    pub input_schema: serde_json::Value,
    /// The schema of its output.
    pub output_schema: serde_json::Value,
    /// The capabilities it needs.
    pub required_capabilities: Vec<String>,
    /// Its risk.
    pub risk_level: ToolRisk,
    /// Its time limit in milliseconds.
    pub timeout_ms: u64,
    /// The side effects it has.
    pub side_effects: Vec<String>,
    /// Whether the user must confirm each use.
    pub requires_confirmation: bool,
}

/// The first required field, among the schema's `required` entries that
/// are strings, that the input lacks.
pub open spec fn first_missing_field(required: Seq<serde_json::Value>, input: serde_json::Value) -> Option<Seq<char>>
    decreases required.len(),
{
    if required.len() == 0 {
        None
    } else {
        match json_text(required[0]) {
            Some(name) => if json_field(input, name) is None {
                Some(name)
            } else {
                first_missing_field(required.drop_first(), input)
            },
            None => first_missing_field(required.drop_first(), input),
        }
    }
}

/// The verdict on a tool input: refused, naming the field, when the input
/// schema's `required` array names a field the input lacks.
pub open spec fn spec_tool_input_check(schema: serde_json::Value, input: serde_json::Value) -> Result<(), Seq<char>> {
    match json_field(schema, "required"@) {
        Some(req) => match json_items(req) {
            Some(items) => match first_missing_field(items, input) {
                Some(name) => Err("Missing required field: "@ + name),
                None => Ok(()),
            },
            None => Ok(()),
        },
        None => Ok(()),
    }
}

/// The input schema `{"required": [names...]}`.
pub fn required_fields_schema(names: &[&str]) -> (r: serde_json::Value)
    ensures
        json_is_object(r),
        json_field(r, "required"@) matches Some(req) && json_items(req) matches Some(items) && items.len()
            == names@.len() && forall|i: int| 0 <= i < items.len() ==> json_text(items[i]) == Some(names@[i]@),
{
    let mut items: Vec<serde_json::Value> = Vec::new();
    let mut i: usize = 0;
    while i < names.len()
        invariant
            i <= names@.len(),
            items@.len() == i,
            forall|k: int| 0 <= k < i ==> json_text(items@[k]) == Some(names@[k]@),
        decreases names@.len() - i,
    {
        items.push(string_value(names[i]));
        i += 1;
    }
    let ghost seq = items@;
    let arr = array_value(items);
    object_with("required", arr)
}

impl ToolDefinition {
    /// A low-risk tool with empty schemas, no capabilities, no side
    /// effects, a 30 s time limit and no confirmation.
    pub fn new(id: &str, name: &str, description: &str) -> (r: ToolDefinition)
        ensures
            r.id.0@ == id@,
            r.name@ == name@,
            r.description@ == description@,
            json_is_object(r.input_schema),
            forall|k: Seq<char>| json_field(r.input_schema, k) is None,
            json_is_object(r.output_schema),
            forall|k: Seq<char>| json_field(r.output_schema, k) is None,
            r.required_capabilities@ == Seq::<String>::empty(),
            r.risk_level == ToolRisk::Low,
            r.timeout_ms == 30_000,
            r.side_effects@ == Seq::<String>::empty(),
            !r.requires_confirmation,
    {
        ToolDefinition {
            id: ToolId::new(id),
            name: to_owned_string(name),
            description: to_owned_string(description),
            input_schema: empty_object(),
            output_schema: empty_object(),
            required_capabilities: Vec::new(),
            risk_level: ToolRisk::Low,
            timeout_ms: 30_000,
            side_effects: Vec::new(),
            requires_confirmation: false,
        }
    }

    /// The same tool needing one more capability.
    pub fn with_capability(self, cap: &str) -> (r: ToolDefinition)
        ensures
            strings_view(r.required_capabilities@) == strings_view(self.required_capabilities@).push(cap@),
            r == (ToolDefinition { required_capabilities: r.required_capabilities, ..self }),
    {
        let mut r = self;
        let ghost before = r.required_capabilities@;
        r.required_capabilities.push(to_owned_string(cap));
        assert(strings_view(r.required_capabilities@) =~= strings_view(before).push(cap@));
        r
    }

    /// The same tool with another risk level.
    pub fn with_risk_level(self, level: ToolRisk) -> (r: ToolDefinition)
        ensures
            r == (ToolDefinition { risk_level: level, ..self }),
    {
        let mut r = self;
        r.risk_level = level;
        r
    }

    /// The same tool with another time limit.
    pub fn with_timeout(self, ms: u64) -> (r: ToolDefinition)
        ensures
            r == (ToolDefinition { timeout_ms: ms, ..self }),
    {
        let mut r = self;
        r.timeout_ms = ms;
        r
    }

    /// The same tool with one more side effect.
    pub fn with_side_effect(self, effect: &str) -> (r: ToolDefinition)
        ensures
            strings_view(r.side_effects@) == strings_view(self.side_effects@).push(effect@),
            r == (ToolDefinition { side_effects: r.side_effects, ..self }),
    {
        let mut r = self;
        let ghost before = r.side_effects@;
        r.side_effects.push(to_owned_string(effect));
        assert(strings_view(r.side_effects@) =~= strings_view(before).push(effect@));
        r
    }

    /// The same tool, needing the user's confirmation.
    pub fn with_confirmation(self) -> (r: ToolDefinition)
        ensures
            r == (ToolDefinition { requires_confirmation: true, ..self }),
    {
        let mut r = self;
        r.requires_confirmation = true;
        r
    }

    /// The same tool with another input schema.
    pub fn with_input_schema(self, schema: serde_json::Value) -> (r: ToolDefinition)
        ensures
            r == (ToolDefinition { input_schema: schema, ..self }),
    {
        let mut r = self;
        r.input_schema = schema;
        r
    }

    /// The same tool with another output schema.
    pub fn with_output_schema(self, schema: serde_json::Value) -> (r: ToolDefinition)
        ensures
            r == (ToolDefinition { output_schema: schema, ..self }),
    {
        let mut r = self;
        r.output_schema = schema;
        r
    }

    /// Checks an input against the schema's required fields.
    pub fn validate_input(&self, input: &serde_json::Value) -> (r: Result<(), String>)
        ensures
            match r {
                Ok(()) => spec_tool_input_check(self.input_schema, *input) == Ok::<(), Seq<char>>(()),
                Err(e) => spec_tool_input_check(self.input_schema, *input) == Err::<(), Seq<char>>(e@),
            },
    {
        let req = match value_field(&self.input_schema, "required") {
            Some(v) => v,
            None => {
                return Ok(());
            },
        };
        let fields = match value_items(&req) {
            Some(a) => a,
            None => {
                return Ok(());
            },
        };
        let mut i: usize = 0;
        proof {
            assert(fields@.subrange(0, fields@.len() as int) =~= fields@);
        }
        while i < fields.len()
            invariant
                json_field(self.input_schema, "required"@) == Some(req),
                json_items(req) == Some(fields@),
                i <= fields@.len(),
                first_missing_field(fields@, *input) == first_missing_field(fields@.subrange(i as int, fields@.len() as int), *input),
            decreases fields@.len() - i,
        {
            proof {
                let rest = fields@.subrange(i as int, fields@.len() as int);
                assert(rest.drop_first() =~= fields@.subrange(i + 1, fields@.len() as int));
                assert(rest[0] == fields@[i as int]);
            }
            match value_text(&fields[i]) {
                Some(name) => {
                    if value_field(input, name.as_str()).is_none() {
                        let mut e = String::from_str("Missing required field: ");
                        e.append(name.as_str());
                        return Err(e);
                    }
                },
                None => {},
            }
            i += 1;
        }
        Ok(())
    }
}

/// The tools of `s` that need `capability`, by position.
pub open spec fn tools_needing(s: Seq<ToolDefinition>, capability: Seq<char>, n: int) -> Seq<int>
    decreases n,
{
    if n <= 0 {
        Seq::empty()
    } else {
        let rest = tools_needing(s, capability, n - 1);
        if strings_view(s[n - 1].required_capabilities@).contains(capability) {
            rest.push(n - 1)
        } else {
            rest
        }
    }
}

/// The registry of tools, in registration order; no id is registered
/// twice.
pub struct ToolRegistry {
    tools: Vec<ToolDefinition>,
}

impl ToolRegistry {
    /// The registered tools, in registration order.
    pub closed spec fn spec_tools(&self) -> Seq<ToolDefinition> {
        self.tools@
    }

    /// No id is registered twice.
    pub open spec fn wf(&self) -> bool {
        forall|i: int, j: int|
            0 <= i < j < self.spec_tools().len() ==> self.spec_tools()[i].id.0@ != self.spec_tools()[j].id.0@
    }

    /// Whether a tool with this id is registered.
    pub open spec fn spec_has(&self, id: Seq<char>) -> bool {
        exists|i: int| 0 <= i < self.spec_tools().len() && self.spec_tools()[i].id.0@ == id
    }

    /// An empty registry.
    pub fn new() -> (r: ToolRegistry)
        ensures
            r.spec_tools().len() == 0,
            r.wf(),
    {
        ToolRegistry { tools: Vec::new() }
    }

    fn position(&self, id: &str) -> (r: Option<usize>)
        ensures
            match r {
                Some(i) => i < self.spec_tools().len() && self.spec_tools()[i as int].id.0@ == id@,
                None => !self.spec_has(id@),
            },
    {
        let mut i: usize = 0;
        while i < self.tools.len()
            invariant
                i <= self.tools@.len(),
                forall|j: int| 0 <= j < i ==> self.tools@[j].id.0@ != id@,
            decreases self.tools@.len() - i,
        {
            if str_eq(self.tools[i].id.0.as_str(), id) {
                return Some(i);
            }
            i += 1;
        }
        None
    }

    /// Registers a tool; an id already registered is refused.
    pub fn register(&mut self, tool: ToolDefinition) -> (r: Result<(), String>)
        ensures
            r is Ok <==> !old(self).spec_has(tool.id.0@),
            r is Ok ==> final(self).spec_tools() == old(self).spec_tools().push(tool),
            r matches Err(e) ==> e@ == "Tool '"@ + tool.id.0@ + "' already registered"@ && final(self).spec_tools()
                == old(self).spec_tools(),
            old(self).wf() ==> final(self).wf(),
    {
        match self.position(tool.id.0.as_str()) {
            Some(_) => {
                let mut e = String::from_str("Tool '");
                e.append(tool.id.0.as_str());
                e.append("' already registered");
                Err(e)
            },
            None => {
                self.tools.push(tool);
                Ok(())
            },
        }
    }

    /// Removes the tool with this id; whether there was one.
    pub fn unregister(&mut self, id: &ToolId) -> (r: bool)
        requires
            old(self).wf(),
        ensures
            r == old(self).spec_has(id.0@),
            !final(self).spec_has(id.0@),
            final(self).wf(),
            forall|t: ToolDefinition| t.id.0@ != id.0@ ==> (final(self).spec_tools().contains(t) <==> old(
                self,
            ).spec_tools().contains(t)),
    {
        match self.position(id.0.as_str()) {
            Some(i) => {
                let ghost s0 = self.tools@;
                let _ = self.tools.remove(i);
                proof {
                    assert(self.tools@ =~= s0.remove(i as int));
                    assert forall|a: int, b: int| 0 <= a < b < self.tools@.len() implies self.tools@[a].id.0@
                        != self.tools@[b].id.0@ by {
                        let a2 = if a < i { a } else { a + 1 };
                        let b2 = if b < i { b } else { b + 1 };
                        assert(self.tools@[a] == s0[a2]);
                        assert(self.tools@[b] == s0[b2]);
                    }
                    if self.spec_has(id.0@) {
                        let k = choose|k: int| 0 <= k < self.tools@.len() && self.tools@[k].id.0@ == id.0@;
                        let k2 = if k < i { k } else { k + 1 };
                        assert(self.tools@[k] == s0[k2]);
                    }
                    assert forall|t: ToolDefinition| t.id.0@ != id.0@ implies (self.tools@.contains(t) <==> s0.contains(
                        t,
                    )) by {
                        if s0.contains(t) {
                            let k = choose|k: int| 0 <= k < s0.len() && s0[k] == t;
                            assert(k != i);
                            let k2 = if k < i { k } else { k - 1 };
                            assert(self.tools@[k2] == t);
                        }
                        if self.tools@.contains(t) {
                            let k = choose|k: int| 0 <= k < self.tools@.len() && self.tools@[k] == t;
                            let k2 = if k < i { k } else { k + 1 };
                            assert(s0[k2] == t);
                        }
                    }
                }
                true
            },
            None => false,
        }
    }

    /// The tool with this id, if registered.
    pub fn get(&self, id: &ToolId) -> (r: Option<&ToolDefinition>)
        ensures
            r is Some <==> self.spec_has(id.0@),
            r matches Some(t) ==> t.id.0@ == id.0@ && self.spec_tools().contains(*t),
    {
        match self.position(id.0.as_str()) {
            Some(i) => Some(&self.tools[i]),
            None => None,
        }
    }

    /// Every registered tool, in registration order.
    pub fn list(&self) -> (r: Vec<&ToolDefinition>)
        ensures
            r@.len() == self.spec_tools().len(),
            forall|i: int| 0 <= i < r@.len() ==> *r@[i] == self.spec_tools()[i],
    {
        let mut out: Vec<&ToolDefinition> = Vec::new();
        let mut i: usize = 0;
        while i < self.tools.len()
            invariant
                i <= self.tools@.len(),
                out@.len() == i,
                forall|k: int| 0 <= k < i ==> *out@[k] == self.tools@[k],
            decreases self.tools@.len() - i,
        {
            out.push(&self.tools[i]);
            i += 1;
        }
        out
    }

    /// The tools that need `capability`, in registration order.
    pub fn discover(&self, capability: &str) -> (r: Vec<&ToolDefinition>)
        ensures
            r@.len() == tools_needing(self.spec_tools(), capability@, self.spec_tools().len() as int).len(),
            forall|k: int| 0 <= k < r@.len() ==> *r@[k] == self.spec_tools()[tools_needing(
                self.spec_tools(),
                capability@,
                self.spec_tools().len() as int,
            )[k]],
    {
        let mut out: Vec<&ToolDefinition> = Vec::new();
        let mut i: usize = 0;
        while i < self.tools.len()
            invariant
                i <= self.tools@.len(),
                out@.len() == tools_needing(self.tools@, capability@, i as int).len(),
                forall|k: int| 0 <= k < out@.len() ==> *out@[k] == self.tools@[tools_needing(
                    self.tools@,
                    capability@,
                    i as int,
                )[k]],
            decreases self.tools@.len() - i,
        {
            let t = &self.tools[i];
            let mut found = false;
            let mut j: usize = 0;
            while j < t.required_capabilities.len()
                invariant
                    j <= t.required_capabilities@.len(),
                    found == exists|k: int| 0 <= k < j && strings_view(t.required_capabilities@)[k] == capability@,
                decreases t.required_capabilities@.len() - j,
            {
                if str_eq(t.required_capabilities[j].as_str(), capability) {
                    assert(strings_view(t.required_capabilities@)[j as int] == capability@);
                    found = true;
                }
                j += 1;
            }
            proof {
                let cs = strings_view(t.required_capabilities@);
                if found {
                    let k = choose|k: int| 0 <= k < j && cs[k] == capability@;
                    assert(cs.contains(capability@));
                } else {
                    assert(!cs.contains(capability@));
                }
            }
            if found {
                out.push(t);
            }
            i += 1;
        }
        out
    }

    /// The number of registered tools.
    pub fn count(&self) -> (r: usize)
        ensures
            r == self.spec_tools().len(),
    {
        self.tools.len()
    }

    /// Checks an input for the tool with this id; an unknown tool is
    /// refused.
    pub fn validate_input(&self, id: &ToolId, input: &serde_json::Value) -> (r: Result<(), String>)
        ensures
            !self.spec_has(id.0@) ==> (r matches Err(e) && e@ == "Tool '"@ + id.0@ + "' not found"@),
            self.spec_has(id.0@) ==> exists|i: int|
                0 <= i < self.spec_tools().len() && self.spec_tools()[i].id.0@ == id.0@ && match r {
                    Ok(()) => spec_tool_input_check(self.spec_tools()[i].input_schema, *input) == Ok::<(), Seq<char>>(()),
                    Err(e) => spec_tool_input_check(self.spec_tools()[i].input_schema, *input) == Err::<(), Seq<char>>(e@),
                },
    {
        match self.position(id.0.as_str()) {
            Some(i) => self.tools[i].validate_input(input),
            None => {
                let mut e = String::from_str("Tool '");
                e.append(id.0.as_str());
                e.append("' not found");
                Err(e)
            },
        }
    }
}

/// The ids of the built-in tools, in registration order.
pub open spec fn default_tool_ids() -> Seq<Seq<char>> {
    seq![
        "filesystem.list"@, "filesystem.stat"@, "filesystem.search"@, "storage.status"@,
        "process.list"@, "process.inspect"@, "application.list"@, "application.launch"@,
        "application.close"@, "network.status"@, "network.interfaces"@, "system.status"@,
        "window.list"@, "window.inspect"@,
    ]
}

/// The capability each built-in tool needs, in registration order.
pub open spec fn default_tool_capabilities() -> Seq<Seq<char>> {
    seq![
        "file.list"@, "file.read"@, "file.search"@, "storage.status"@,
        "process.list"@, "process.inspect"@, "application.list"@, "application.launch"@,
        "application.close"@, "network.status"@, "network.interfaces"@, "system.status"@,
        "window.list"@, "window.list"@,
    ]
}

/// The risk of each built-in tool: the application launch and close
/// tools are medium, the others low.
pub open spec fn default_tool_risk(i: int) -> ToolRisk {
    if i == 7 || i == 8 {
        ToolRisk::Medium
    } else {
        ToolRisk::Low
    }
}

/// The display name of each built-in tool, in registration order.
pub open spec fn default_tool_names() -> Seq<Seq<char>> {
    seq![
        "List Files"@,
        "File Status"@,
        "Search Files"@,
        "Storage Status"@,
        "List Processes"@,
        "Inspect Process"@,
        "List Applications"@,
        "Launch Application"@,
        "Close Application"@,
        "Network Status"@,
        "Network Interfaces"@,
        "System Status"@,
        "List Windows"@,
        "Inspect Window"@,
    ]
}

/// The description of each built-in tool, in registration order.
pub open spec fn default_tool_descriptions() -> Seq<Seq<char>> {
    seq![
        "List files in a directory"@,
        "Get file metadata"@,
        "Search for files"@,
        "Get storage status"@,
        "List running processes"@,
        "Inspect a process"@,
        "List registered applications"@,
        "Launch an application"@,
        "Close an application"@,
        "Get network status"@,
        "List network interfaces"@,
        "Get system status"@,
        "List open windows"@,
        "Inspect a window"@,
    ]
}

/// The input fields each built-in tool requires, in registration order.
pub open spec fn default_tool_required_fields() -> Seq<Seq<Seq<char>>> {
    seq![
        seq!["path"@],
        seq!["path"@],
        seq!["query"@],
        seq![],
        seq![],
        seq!["pid"@],
        seq![],
        seq!["application_id"@],
        seq!["application_id"@],
        seq![],
        seq![],
        seq![],
        seq![],
        seq!["window_id"@],
    ]
}

/// The side effects each built-in tool declares, in registration order:
/// launching starts a process and closing stops one; the others have
/// none.
pub open spec fn default_tool_side_effects() -> Seq<Seq<Seq<char>>> {
    seq![
        seq![],
        seq![],
        seq![],
        seq![],
        seq![],
        seq![],
        seq![],
        seq!["process.start"@],
        seq!["process.stop"@],
        seq![],
        seq![],
        seq![],
        seq![],
        seq![],
    ]
}

/// An input schema requiring `names`: an object with no member when there
/// are none, else one whose `required` array holds the names in order.
pub open spec fn requires_fields(schema: serde_json::Value, names: Seq<Seq<char>>) -> bool {
    &&& json_is_object(schema)
    &&& if names.len() == 0 {
        forall|k: Seq<char>| json_field(schema, k) is None
    } else {
        &&& json_field(schema, "required"@) matches Some(req)
        &&& json_items(req) matches Some(items)
        &&& items.len() == names.len()
        &&& forall|i: int| 0 <= i < items.len() ==> json_text(items[i]) == Some(names[i])
    }
}

/// The built-in tool at position `i` is the one the tables above
/// describe: id, name, description, required input fields, the one
/// capability it needs, risk, side effects; a 30 s time limit, no
/// confirmation, and an output schema with no member.
pub open spec fn is_default_tool(t: ToolDefinition, i: int) -> bool {
    &&& t.id.0@ == default_tool_ids()[i]
    &&& t.name@ == default_tool_names()[i]
    &&& t.description@ == default_tool_descriptions()[i]
    &&& requires_fields(t.input_schema, default_tool_required_fields()[i])
    &&& strings_view(t.required_capabilities@) == seq![default_tool_capabilities()[i]]
    &&& t.risk_level == default_tool_risk(i)
    &&& strings_view(t.side_effects@) == default_tool_side_effects()[i]
    &&& t.timeout_ms == 30_000
    &&& !t.requires_confirmation
    &&& json_is_object(t.output_schema)
    &&& forall|k: Seq<char>| json_field(t.output_schema, k) is None
}

/// The built-in tools' ids are pairwise different.
proof fn lemma_default_tool_ids_distinct()
    ensures
        forall|i: int, j: int| 0 <= i < j < 14 ==> default_tool_ids()[i] != default_tool_ids()[j],
{
    reveal_strlit("filesystem.list");
    reveal_strlit("filesystem.stat");
    reveal_strlit("filesystem.search");
    reveal_strlit("storage.status");
    reveal_strlit("process.list");
    reveal_strlit("process.inspect");
    reveal_strlit("application.list");
    reveal_strlit("application.launch");
    reveal_strlit("application.close");
    reveal_strlit("network.status");
    reveal_strlit("network.interfaces");
    reveal_strlit("system.status");
    reveal_strlit("window.list");
    reveal_strlit("window.inspect");
    let ids = default_tool_ids();
    assert forall|i: int, j: int| 0 <= i < j < 14 implies ids[i] != ids[j] by {
        if ids[i].len() == ids[j].len() {
            assert(ids[i][0] != ids[j][0] || ids[i][11] != ids[j][11]);
        }
    }
}

/// The registry of the built-in tools, in this order: file listing,
/// status and search; storage status; process listing and inspection;
/// application listing, launch and close; network status and
/// interfaces; system status; window listing and inspection. Each needs
/// one capability; launch and close are medium risk and have a side
/// effect; the others are low risk.
pub fn default_tools() -> (r: ToolRegistry)
    ensures
        r.wf(),
        r.spec_tools().len() == 14,
        forall|i: int| 0 <= i < 14 ==> is_default_tool(#[trigger] r.spec_tools()[i], i),
{
    let t0 = ToolDefinition::new("filesystem.list", "List Files", "List files in a directory").with_capability("file.list").with_input_schema(required_fields_schema(&["path"]));
    proof {
        assert(strings_view(Seq::<String>::empty()).push(default_tool_capabilities()[0]) =~= seq![default_tool_capabilities()[0]]);
        assert(strings_view(Seq::<String>::empty()) =~= Seq::<Seq<char>>::empty());
        assert(is_default_tool(t0, 0));
    }
    let t1 = ToolDefinition::new("filesystem.stat", "File Status", "Get file metadata").with_capability("file.read").with_input_schema(required_fields_schema(&["path"]));
    proof {
        assert(strings_view(Seq::<String>::empty()).push(default_tool_capabilities()[1]) =~= seq![default_tool_capabilities()[1]]);
        assert(strings_view(Seq::<String>::empty()) =~= Seq::<Seq<char>>::empty());
        assert(is_default_tool(t1, 1));
    }
    let t2 = ToolDefinition::new("filesystem.search", "Search Files", "Search for files").with_capability("file.search").with_input_schema(required_fields_schema(&["query"]));
    proof {
        assert(strings_view(Seq::<String>::empty()).push(default_tool_capabilities()[2]) =~= seq![default_tool_capabilities()[2]]);
        assert(strings_view(Seq::<String>::empty()) =~= Seq::<Seq<char>>::empty());
        assert(is_default_tool(t2, 2));
    }
    let t3 = ToolDefinition::new("storage.status", "Storage Status", "Get storage status").with_capability("storage.status");
    proof {
        assert(strings_view(Seq::<String>::empty()).push(default_tool_capabilities()[3]) =~= seq![default_tool_capabilities()[3]]);
        assert(strings_view(Seq::<String>::empty()) =~= Seq::<Seq<char>>::empty());
        assert(is_default_tool(t3, 3));
    }
    let t4 = ToolDefinition::new("process.list", "List Processes", "List running processes").with_capability("process.list");
    proof {
        assert(strings_view(Seq::<String>::empty()).push(default_tool_capabilities()[4]) =~= seq![default_tool_capabilities()[4]]);
        assert(strings_view(Seq::<String>::empty()) =~= Seq::<Seq<char>>::empty());
        assert(is_default_tool(t4, 4));
    }
    let t5 = ToolDefinition::new("process.inspect", "Inspect Process", "Inspect a process").with_capability("process.inspect").with_input_schema(required_fields_schema(&["pid"]));
    proof {
        assert(strings_view(Seq::<String>::empty()).push(default_tool_capabilities()[5]) =~= seq![default_tool_capabilities()[5]]);
        assert(strings_view(Seq::<String>::empty()) =~= Seq::<Seq<char>>::empty());
        assert(is_default_tool(t5, 5));
    }
    let t6 = ToolDefinition::new("application.list", "List Applications", "List registered applications").with_capability("application.list");
    proof {
        assert(strings_view(Seq::<String>::empty()).push(default_tool_capabilities()[6]) =~= seq![default_tool_capabilities()[6]]);
        assert(strings_view(Seq::<String>::empty()) =~= Seq::<Seq<char>>::empty());
        assert(is_default_tool(t6, 6));
    }
    let t7 = ToolDefinition::new("application.launch", "Launch Application", "Launch an application").with_capability("application.launch").with_risk_level(ToolRisk::Medium).with_side_effect("process.start").with_input_schema(required_fields_schema(&["application_id"]));
    proof {
        assert(strings_view(Seq::<String>::empty()).push(default_tool_capabilities()[7]) =~= seq![default_tool_capabilities()[7]]);
        assert(strings_view(Seq::<String>::empty()) =~= Seq::<Seq<char>>::empty());
        assert(strings_view(Seq::<String>::empty()).push("process.start"@) =~= seq!["process.start"@]);
        assert(is_default_tool(t7, 7));
    }
    let t8 = ToolDefinition::new("application.close", "Close Application", "Close an application").with_capability("application.close").with_risk_level(ToolRisk::Medium).with_side_effect("process.stop").with_input_schema(required_fields_schema(&["application_id"]));
    proof {
        assert(strings_view(Seq::<String>::empty()).push(default_tool_capabilities()[8]) =~= seq![default_tool_capabilities()[8]]);
        assert(strings_view(Seq::<String>::empty()) =~= Seq::<Seq<char>>::empty());
        assert(strings_view(Seq::<String>::empty()).push("process.stop"@) =~= seq!["process.stop"@]);
        assert(is_default_tool(t8, 8));
    }
    let t9 = ToolDefinition::new("network.status", "Network Status", "Get network status").with_capability("network.status");
    proof {
        assert(strings_view(Seq::<String>::empty()).push(default_tool_capabilities()[9]) =~= seq![default_tool_capabilities()[9]]);
        assert(strings_view(Seq::<String>::empty()) =~= Seq::<Seq<char>>::empty());
        assert(is_default_tool(t9, 9));
    }
    let t10 = ToolDefinition::new("network.interfaces", "Network Interfaces", "List network interfaces").with_capability("network.interfaces");
    proof {
        assert(strings_view(Seq::<String>::empty()).push(default_tool_capabilities()[10]) =~= seq![default_tool_capabilities()[10]]);
        assert(strings_view(Seq::<String>::empty()) =~= Seq::<Seq<char>>::empty());
        assert(is_default_tool(t10, 10));
    }
    let t11 = ToolDefinition::new("system.status", "System Status", "Get system status").with_capability("system.status");
    proof {
        assert(strings_view(Seq::<String>::empty()).push(default_tool_capabilities()[11]) =~= seq![default_tool_capabilities()[11]]);
        assert(strings_view(Seq::<String>::empty()) =~= Seq::<Seq<char>>::empty());
        assert(is_default_tool(t11, 11));
    }
    let t12 = ToolDefinition::new("window.list", "List Windows", "List open windows").with_capability("window.list");
    proof {
        assert(strings_view(Seq::<String>::empty()).push(default_tool_capabilities()[12]) =~= seq![default_tool_capabilities()[12]]);
        assert(strings_view(Seq::<String>::empty()) =~= Seq::<Seq<char>>::empty());
        assert(is_default_tool(t12, 12));
    }
    let t13 = ToolDefinition::new("window.inspect", "Inspect Window", "Inspect a window").with_capability("window.list").with_input_schema(required_fields_schema(&["window_id"]));
    proof {
        assert(strings_view(Seq::<String>::empty()).push(default_tool_capabilities()[13]) =~= seq![default_tool_capabilities()[13]]);
        assert(strings_view(Seq::<String>::empty()) =~= Seq::<Seq<char>>::empty());
        assert(is_default_tool(t13, 13));
    }
    let tools: Vec<ToolDefinition> = vec![t0, t1, t2, t3, t4, t5, t6, t7, t8, t9, t10, t11, t12, t13];
    let ghost all = tools@;
    assert forall|i: int| 0 <= i < 14 implies is_default_tool(#[trigger] all[i], i) by {
        if i == 0 { assert(all[i] == t0); }
        if i == 1 { assert(all[i] == t1); }
        if i == 2 { assert(all[i] == t2); }
        if i == 3 { assert(all[i] == t3); }
        if i == 4 { assert(all[i] == t4); }
        if i == 5 { assert(all[i] == t5); }
        if i == 6 { assert(all[i] == t6); }
        if i == 7 { assert(all[i] == t7); }
        if i == 8 { assert(all[i] == t8); }
        if i == 9 { assert(all[i] == t9); }
        if i == 10 { assert(all[i] == t10); }
        if i == 11 { assert(all[i] == t11); }
        if i == 12 { assert(all[i] == t12); }
        if i == 13 { assert(all[i] == t13); }
    }
    proof {
        lemma_default_tool_ids_distinct();
    }
    let mut rest = tools;
    let mut registry = ToolRegistry::new();
    let mut k: usize = 0;
    while k < 14
        invariant
            k <= 14,
            all.len() == 14,
            registry.wf(),
            registry.spec_tools() == all.subrange(0, k as int),
            rest@ == all.subrange(k as int, 14),
            forall|i: int| 0 <= i < 14 ==> (#[trigger] all[i]).id.0@ == default_tool_ids()[i],
            forall|i: int, j: int| 0 <= i < j < 14 ==> default_tool_ids()[i] != default_tool_ids()[j],
        decreases 14 - k,
    {
        let t = rest.remove(0);
        proof {
            assert(t == all[k as int]);
            if registry.spec_has(t.id.0@) {
                let i = choose|i: int| 0 <= i < registry.spec_tools().len() && registry.spec_tools()[i].id.0@ == t.id.0@;
                assert(registry.spec_tools()[i] == all[i]);
            }
        }
        let _ = registry.register(t);
        assert(registry.spec_tools() =~= all.subrange(0, k + 1));
        assert(rest@ =~= all.subrange(k + 1, 14));
        k += 1;
    }
    assert(registry.spec_tools() =~= all);
    registry
}

impl Default for ToolRegistry {
    fn default() -> (r: ToolRegistry)
        ensures
            r.spec_tools().len() == 0,
            r.wf(),
    {
        ToolRegistry::new()
    }
}

} // verus!
