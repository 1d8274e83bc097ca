//! Builds macOS application bundles around Windows programs that run under Wine.
//!
//! The library decides what has to be done, step by step, and in which order;
//! the caller performs each step on the machine and reports how it went.

pub mod action;
pub mod config;
pub mod create;
pub mod error;
pub mod files;
pub mod init;
pub mod laws;
pub mod pipeline;
pub mod text;
