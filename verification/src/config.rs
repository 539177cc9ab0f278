//! Descriptors for the configured sync pairs.
//!
//! A descriptor is immutable once loaded and is owned exclusively by the
//! worker driving its pair. Loading and parsing the configuration file is the
//! harness's job; the engine only consumes the validated descriptors.

use vstd::prelude::*;

verus! {

/// One configured (local root, remote root, credentials) unit, synced
/// independently of every other pair.
///
/// `local_path` and `remote_path` are absolute directory paths written
/// without a trailing separator; every change event handed to this pair's
/// worker must carry a path under `local_path`.
#[derive(Debug, PartialEq, Eq)]
pub struct SyncPath {
    /// Label for log lines about this pair.
    pub name: String,
    /// Remote host to connect to.
    pub host: String,
    /// Remote port to connect to.
    pub port: u16,
    /// User name authenticated on the remote host.
    pub username: String,
    /// Path of the private key file used for public-key authentication.
    pub private_key_path: String,
    /// Root of the local directory tree that is mirrored.
    pub local_path: String,
    /// Root of the remote directory tree that receives the mirror.
    pub remote_path: String,
}

/// The full configuration: one descriptor per sync pair.
#[derive(Debug, PartialEq, Eq)]
pub struct Config {
    /// The configured pairs; one independent worker is made for each.
    pub paths: Vec<SyncPath>,
}

} // verus!
