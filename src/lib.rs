//! Orchestration core of a task runner that hands a coding task to an agent
//! inside a container, routes its LLM traffic, relays its questions to a
//! human and folds its work back into the user's branch.

pub mod config;
pub mod coordinator;
pub mod git;
pub mod keys;
pub mod outcome;
pub mod relay;
pub mod runtime;
pub mod text;
