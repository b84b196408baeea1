//! Market-cap monitor: the application state machine, its bounded buffers,
//! the refresh scheduler and the alarm coordinator, with their text helpers.
pub mod alarm;
pub mod app;
pub mod clock;
pub mod history;
pub mod input;
pub mod laws;
pub mod market;
pub mod scheduler;
pub mod text;
