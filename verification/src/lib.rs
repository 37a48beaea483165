//! Core logic of a command-line client that mirrors small automation scripts
//! ("Homescripts") stored on a remote home-automation server into local
//! workspace directories.
//!
//! This crate holds everything that can be decided without touching the
//! network or the filesystem: the workspace manifest codec, the sync-engine
//! decisions (create, delete, clone, pull, push with its lint gate), the
//! classification of execution results, the diagnostic renderer, the REPL
//! step logic, and the error taxonomy. A thin unverified shell performs the
//! actual I/O and feeds plain values into these functions.

pub mod admin;
pub mod cli;
pub mod config;
pub mod errors;
pub mod exec;
pub mod listing;
pub mod manifest;
pub mod power;
pub mod render;
pub mod repl;
pub mod script;
pub mod sync;
pub mod text;
