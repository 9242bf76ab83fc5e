//! State behind the interface: what the user selected, what a run reports.

pub mod engine;
pub mod shared_state;
pub mod state;
pub mod string_map;
pub mod tweaks;
