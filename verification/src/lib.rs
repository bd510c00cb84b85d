//! Verified core of a small desktop shell that finds, starts and supervises a
//! local OpenCode web server.
//!
//! The shell's decisions live here; the shell itself only performs what the
//! state machines in [`boot`], [`monitor`] and [`update`] ask for and reports
//! back what happened.

pub mod binary;
pub mod boot;
pub mod config;
pub mod error;
pub mod events;
pub mod launch;
pub mod monitor;
pub mod paths;
pub mod probe;
pub mod text;
pub mod update;
