//! The parts of a command bot that the SDK ships with: command parsing, an
//! access list, a bounded key-value store, a duplicate-message filter and the
//! settings read from the environment.

pub mod access;
pub mod command;
pub mod dedup;
pub mod flow;
pub mod keyed;
pub mod settings;
pub mod store;
