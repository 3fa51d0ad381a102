//! The detail pane of a to-do application: the state of one selected task,
//! the reducer that turns user interactions into commands for the parent
//! controller, and the plain description of what the pane shows.

pub mod task;
pub mod selector;
pub mod details;
