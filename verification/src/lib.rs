//! Aether agent runtime library: task, proposal, retry, recovery,
//! device pairing and transport logic with machine-checked contracts.

pub mod agent_core;
pub mod background;
pub mod bindings;
pub mod core_types;
pub mod device;
pub mod ids;
pub mod json;
pub mod retry_policy;
pub mod text;
pub mod transport;
pub mod runtime;
pub mod apps;
