//! Iteration state, best-tracking and the driving loop of an iterative
//! optimizer, with costs held as extended integers.
pub mod cost;
pub mod counts;
pub mod elapsed;
pub mod error;
pub mod executor;
pub mod iterstate;
pub mod problem;
pub mod result;
pub mod solver;
pub mod termination;
