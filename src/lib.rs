//! Window-state aggregation for an application launcher: per-window states,
//! their merge into a per-application state, and the decisions that drive
//! the launcher's buttons and conditional visibility.

pub mod open_state;
pub mod window;
pub mod item;
pub mod button;
pub mod config;
