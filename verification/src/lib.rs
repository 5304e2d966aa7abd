//! A small library for managing secrets: it resolves a named store
//! configuration to a concrete backend and performs a single read, write
//! or remove through a uniform contract. Backends are either platform
//! secret stores reached through `keyring-core`, or user-configured
//! external commands driven by a resumable process-execution engine.

pub mod account;
pub mod backend;
pub mod codec;
pub mod config;
pub mod engine;
pub mod error;
pub mod keyring;
pub mod password;
pub mod profile;
pub mod secret;
pub mod store;
