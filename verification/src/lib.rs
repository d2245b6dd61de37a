//! Selective synchronisation of categorised remote assets: a manifest of
//! asset descriptors is filtered against a user-chosen category set, and the
//! matching assets are downloaded and written to per-category paths, with
//! per-item failure isolation and an aggregated report.
//!
//! The crate holds the verified core: category-set parsing, manifest
//! filtering, target-path derivation, per-item outcome settlement and report
//! aggregation. Network and filesystem access stay with the caller, which
//! feeds plain values in and takes plain values back.

pub mod categories;
pub mod coordinator;
pub mod descriptor;
pub mod filter;
pub mod outcome;
pub mod report;
pub mod writer;
