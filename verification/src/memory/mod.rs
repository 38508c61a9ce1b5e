//! Memory areas and the decisions taken around the optimizations.
pub mod types;
pub mod area_text;
pub mod critical_processes;
pub mod ops;
pub mod advanced;
