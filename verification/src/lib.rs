//! Decision logic of a guild bot that synchronises member roles with an
//! identity service and forwards posted images to a print service.
//!
//! Everything here is pure: the functions take plain values, decide, and
//! hand plain values back. Network and platform calls belong to the caller.

pub mod admin;
pub mod client;
pub mod config;
pub mod decimal;
pub mod dispatch;
pub mod models;
pub mod reconcile;
pub mod sync;
pub mod sync_run;
pub mod text;
pub mod watcher;
