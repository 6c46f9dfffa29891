//! A session core for an interactive exercise tutor.
//!
//! The library tracks a learner's progress through an ordered catalog of
//! coding exercises, decides when the external test runner must be started,
//! stopped or re-checked, and reconciles completion status against both the
//! runner's exit code and an in-file sentinel marker.  All decision logic is
//! verified; file reading, process handling and terminal rendering are left
//! to the embedding program, which feeds their results in as plain values.

#![verifier::loop_isolation(false)]

pub mod change_signal;
pub mod exercise_manager;
pub mod exercises;
pub mod session;
pub mod text;

pub use change_signal::ChangeSignal;
pub use exercise_manager::{Exercise, ExerciseManager};
pub use session::SessionController;
