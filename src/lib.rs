//! Orchestration of stack-graph test files: merging builtins and fragments into
//! one shared graph, tallying assertion outcomes, deciding what to report and
//! which artifacts to write, and totalling failures over a run.

pub mod result;
pub mod error;
pub mod graph;
pub mod assembly;
pub mod command;
pub mod totals;
pub mod session;
