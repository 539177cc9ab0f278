//! Core of a one-way directory mirror: each configured pair of a local root
//! and a remote root is synced independently, once fully at startup and then
//! incrementally as local files change.
//!
//! This crate holds the engine's decisions: translating local paths to remote
//! paths, planning the initial recursive upload, coalescing raw filesystem
//! notifications into debounced change events, and the per-pair worker state
//! machine. All I/O (network sessions, directory walks, filesystem
//! notifications, file copies) is performed by the surrounding harness, which
//! feeds results back in as plain values.

pub mod config;
pub mod debounce;
pub mod errors;
pub mod initial;
pub mod path_map;
pub mod worker;
