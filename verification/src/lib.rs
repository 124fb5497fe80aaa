//! Core logic of a CI action that publishes versioned packages from a
//! manifest-driven project to a package registry.
//!
//! The library owns the decision logic: the manifest model, workspace
//! flattening, package lookup, version resolution (including one-level
//! workspace inheritance), the per-package publish decisions, and the
//! selection of the latest registry version from a registry reply.
//! File reading, HTTP and process execution are left to the caller,
//! which feeds their results back in as plain values.

pub mod cargo;
pub mod crates;
pub mod errors;
pub mod publish;
pub mod script;
pub mod toml_read;
