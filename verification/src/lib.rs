//! Core logic of a live terminal dashboard: bounded trend history,
//! metric sampling arithmetic, quit-key detection, process-row
//! formatting, and the render-loop state machine that guarantees the
//! terminal is released exactly once on every exit path.
//!
//! All terminal, clock and operating-system access lives in the
//! surrounding application; this crate holds the decisions and the
//! data, each with a verified contract.

pub mod cat;
pub mod dashboard;
pub mod history;
pub mod input;
pub mod process;
pub mod sampler;

pub use history::HistoryBuffer;
