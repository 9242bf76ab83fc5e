//! Data model and run protocol of a tweak application engine: a catalog of
//! tweaks, the user's selection, the progress record that a worker publishes
//! to an observer, and the state machine that drives one run.

pub mod gui;
