//! The logic of the Jot editor's backend: where drafts are kept for recovery,
//! when the user must confirm, what the window title says, and in which order
//! the host runtime is asked to act.

pub mod commands;
pub mod flow;
pub mod gate;
pub mod host;
pub mod lifecycle;
pub mod model;
pub mod paths;
pub mod recovery;
pub mod session;
pub mod text;
pub mod title;
