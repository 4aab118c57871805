//! The interactive interface: its state, its key bindings and the content
//! of its panes.

pub mod app;
pub mod events;
pub mod ui;
