//! The decisions behind the interface's commands.
pub mod config;
