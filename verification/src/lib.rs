//! The logic of a Zellij plugin that creates a new Rust plugin project:
//! the text it shows, the commands it runs one after another, and the
//! decisions it takes on each event, stated and proved with Verus.

pub mod context;
pub mod filepicker_requests;
pub mod host;
pub mod keys;
pub mod plugin;
pub mod screen;
pub mod sequential_commands_to_run;
pub mod text;
pub mod workspace_layout;
