//! Resolve a named package to a concrete semantic version, plan the
//! acquisition of its source artifact, and plan the materialization of the
//! artifact's file tree into a destination directory.
//!
//! The crate contains the decision logic only: parsing and ordering of
//! semantic versions, selection of the latest published version, the
//! per-entry copy plan that strips the package-manager marker file, and the
//! orchestration state machine that sequences refresh, query, download and
//! copy.  Network and filesystem work is performed by the caller, which
//! feeds the outcome of each step back into the state machine as an event.

pub mod errors;
pub mod materialize;
pub mod orchestrate;
pub mod resolve;
pub mod version;
