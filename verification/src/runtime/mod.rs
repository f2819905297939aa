//! The agent runtime: errors, recovery decisions, the audit log,
//! conversation and session memory, the memory store, cancellation,
//! actions, intents, sessions and the other runtime building blocks.

pub mod errors;
pub mod recovery;
pub mod audit;
pub mod clock;
pub mod memory;
pub mod memory_store;
pub mod cancellation;
pub mod intent;
pub mod llm;
pub mod llm_provider;
pub mod structured_intent;
pub mod action;
pub mod session;
pub mod request;
pub mod approval;
pub mod validator;
pub mod executor;
pub mod host;
pub mod planner;
pub mod task_to_action;
pub mod tool;
pub mod tools;
pub mod observation;
pub mod proposal_runner;
pub mod proposal_generator;
pub mod events;
