//! Decisions of a tool orchestrator and of the file-based feedback bridge that can stop it from
//! retrying.

pub mod approval;
pub mod attempt;
pub mod dialogue;
pub mod dialogue_laws;
pub mod inbox;
pub mod inbox_laws;
pub mod orchestrator;
pub mod outcome_laws;
pub mod run_laws;
pub mod sandboxing;
pub mod std_paths;
pub mod step;
