//! The agent's core model: observations, proposals, tasks and their
//! dependency graph, and the agent's status.

pub mod observation;
pub mod proposal;
pub mod state;
pub mod task;

pub use observation::{Observation, ObservationSeverity, OBSERVATION_LOG_LIMIT};
pub use proposal::{
    proposal_to_task, propose_from_observations, validate_proposal, Proposal, ProposalError, ProposalId, ProposalRisk,
};
pub use state::{AgentStatus, HistoryEntry, TaskStage, MAX_TASK_HISTORY};
pub use task::{AgentTask, TaskDependencyError, TaskGraph, TaskId, TaskKind, TaskRisk};
