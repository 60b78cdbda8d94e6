pub mod bridge;
pub mod cache;
pub mod orchestrator;
pub mod protocol;
pub mod supervisor;
