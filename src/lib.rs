//! A small task list kept in a terminal session: the tasks, the selection, the
//! input modes and how keys move between them, the debug log and the screen
//! layout, each with its contract.

pub mod text;
pub mod task;
pub mod session;
pub mod laws;
pub mod layout;
pub mod debug_log;
pub mod store;
pub mod render;
pub mod notes;
