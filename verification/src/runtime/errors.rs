//! The errors of the agent runtime.
use vstd::prelude::*;

verus! {

/// An error of the agent runtime; each variant carries a message.
#[derive(Debug, Clone)]
pub enum AgentError {
    /// Session error.
    Session(String),
    /// Request error.
    Request(String),
    /// Intent error.
    Intent(String),
    /// Action error.
    Action(String),
    /// Validation error.
    Validation(String),
    /// Capability denied.
    CapabilityDenied(String),
    /// Policy denied.
    PolicyDenied(String),
    /// Approval required.
    ApprovalRequired(String),
    /// Execution error.
    Execution(String),
    /// IPC error.
    Ipc(String),
    /// Tool error.
    Tool(String),
    /// Planner error.
    Planner(String),
    /// LLM error.
    Llm(String),
    /// Observation error.
    Observation(String),
    /// Cancellation.
    Cancellation(String),
    /// Timeout.
    Timeout(String),
    /// Not found.
    NotFound(String),
    /// Internal error.
    Internal(String),
}

/// The prefix of the human-readable message of each error.
pub open spec fn spec_error_prefix(e: AgentError) -> Seq<char> {
    match e {
        AgentError::Session(_) => "Session error: "@,
        AgentError::Request(_) => "Request error: "@,
        AgentError::Intent(_) => "Intent error: "@,
        AgentError::Action(_) => "Action error: "@,
        AgentError::Validation(_) => "Validation error: "@,
        AgentError::CapabilityDenied(_) => "Capability denied: "@,
        AgentError::PolicyDenied(_) => "Policy denied: "@,
        AgentError::ApprovalRequired(_) => "Approval required: "@,
        AgentError::Execution(_) => "Execution error: "@,
        AgentError::Ipc(_) => "IPC error: "@,
        AgentError::Tool(_) => "Tool error: "@,
        AgentError::Planner(_) => "Planner error: "@,
        AgentError::Llm(_) => "LLM error: "@,
        AgentError::Observation(_) => "Observation error: "@,
        AgentError::Cancellation(_) => "Cancellation: "@,
        AgentError::Timeout(_) => "Timeout: "@,
        AgentError::NotFound(_) => "Not found: "@,
        AgentError::Internal(_) => "Internal error: "@,
    }
}

/// The message an error carries.
pub open spec fn spec_error_detail(e: AgentError) -> Seq<char> {
    match e {
        AgentError::Session(s) => s@,
        AgentError::Request(s) => s@,
        AgentError::Intent(s) => s@,
        AgentError::Action(s) => s@,
        AgentError::Validation(s) => s@,
        AgentError::CapabilityDenied(s) => s@,
        AgentError::PolicyDenied(s) => s@,
        AgentError::ApprovalRequired(s) => s@,
        AgentError::Execution(s) => s@,
        AgentError::Ipc(s) => s@,
        AgentError::Tool(s) => s@,
        AgentError::Planner(s) => s@,
        AgentError::Llm(s) => s@,
        AgentError::Observation(s) => s@,
        AgentError::Cancellation(s) => s@,
        AgentError::Timeout(s) => s@,
        AgentError::NotFound(s) => s@,
        AgentError::Internal(s) => s@,
    }
}

impl AgentError {
    /// The message carried by the error.
    pub fn detail(&self) -> (r: &String)
        ensures
            r@ == spec_error_detail(*self),
    {
        match self {
            AgentError::Session(s) => s,
            AgentError::Request(s) => s,
            AgentError::Intent(s) => s,
            AgentError::Action(s) => s,
            AgentError::Validation(s) => s,
            AgentError::CapabilityDenied(s) => s,
            AgentError::PolicyDenied(s) => s,
            AgentError::ApprovalRequired(s) => s,
            AgentError::Execution(s) => s,
            AgentError::Ipc(s) => s,
            AgentError::Tool(s) => s,
            AgentError::Planner(s) => s,
            AgentError::Llm(s) => s,
            AgentError::Observation(s) => s,
            AgentError::Cancellation(s) => s,
            AgentError::Timeout(s) => s,
            AgentError::NotFound(s) => s,
            AgentError::Internal(s) => s,
        }
    }

    /// The human-readable message: the variant's prefix, then the detail.
    pub fn to_string(&self) -> (r: String)
        ensures
            r@ == spec_error_prefix(*self) + spec_error_detail(*self),
    {
        let prefix: &str = match self {
            AgentError::Session(_) => "Session error: ",
            AgentError::Request(_) => "Request error: ",
            AgentError::Intent(_) => "Intent error: ",
            AgentError::Action(_) => "Action error: ",
            AgentError::Validation(_) => "Validation error: ",
            AgentError::CapabilityDenied(_) => "Capability denied: ",
            AgentError::PolicyDenied(_) => "Policy denied: ",
            AgentError::ApprovalRequired(_) => "Approval required: ",
            AgentError::Execution(_) => "Execution error: ",
            AgentError::Ipc(_) => "IPC error: ",
            AgentError::Tool(_) => "Tool error: ",
            AgentError::Planner(_) => "Planner error: ",
            AgentError::Llm(_) => "LLM error: ",
            AgentError::Observation(_) => "Observation error: ",
            AgentError::Cancellation(_) => "Cancellation: ",
            AgentError::Timeout(_) => "Timeout: ",
            AgentError::NotFound(_) => "Not found: ",
            AgentError::Internal(_) => "Internal error: ",
        };
        let mut r = String::from_str(prefix);
        r.append(self.detail().as_str());
        r
    }
}

} // verus!
