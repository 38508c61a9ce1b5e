//! Verified core of a Windows memory-optimization utility: memory-area sets,
//! optimization profiles, configuration validation, input sanitization,
//! scheduling decisions and the text tables shown to the user.
pub mod text;
pub mod memory;
pub mod os;
pub mod security;
pub mod config;
pub mod commands;
pub mod engine;
pub mod translations;
pub mod notifications;
pub mod i18n;
pub mod cli;
pub mod tray;
pub mod startup;
pub mod auto_optimizer;
pub mod hotkeys;
pub mod updater;
pub mod system;
pub mod bridge;
pub mod event_log;
pub mod retry;
