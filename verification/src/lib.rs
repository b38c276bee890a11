//! A minimal cooperative task executor whose scheduling rules are stated as
//! contracts and proved, together with the exercise catalogue and progress
//! rules of the tutorial that the executor belongs to.
//!
//! `task` holds the scheduling unit, its wake handle and the ready queue;
//! `executor` the run loop; `model` the executor as a mathematical state and
//! `laws` what holds of every such state; `computations` two worked
//! computations. `exercises`, `runner`, `progress` and `markers` hold the
//! tutorial's tables and rules.

pub mod computations;
pub mod executor;
pub mod exercises;
pub mod laws;
pub mod markers;
pub mod model;
pub mod progress;
pub mod runner;
pub mod task;
