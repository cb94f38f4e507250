//! The `create_thread` agent tool: its identity, its display title, and the
//! protocol by which one invocation creates and titles a conversation thread
//! in the host's entity store.

pub mod entity;
pub mod foreign;
pub mod input;
pub mod laws;
pub mod run;
pub mod tool;

pub use entity::EntityId;
pub use input::CreateThreadToolInput;
pub use run::{NewThread, RunAction, RunError, RunEvent, RunState};
pub use tool::CreateThreadTool;
