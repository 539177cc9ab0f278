//! The engine's error taxonomy.
//!
//! Every failure is local to one pair: it ends (or is logged by) that pair's
//! worker and never touches any other pair.

use vstd::prelude::*;

verus! {

/// Everything that can go wrong while syncing one pair.
///
/// Session-establishment failures (`ConnectError`, `HandshakeError`,
/// `AuthError`, `SessionError`) and watch failures (`WatchSetupError`,
/// `WatchReadError`) are fatal to the pair. `WalkError` and any error during
/// the initial sync are logged and do not stop the pair. A `TransferError`
/// is fatal during live sync but only logged during the initial sync.
/// `PathMappingError` should be unreachable given correct watch scoping and
/// is treated as fatal if observed.
#[derive(Debug, PartialEq, Eq)]
pub enum SyncError {
    /// Opening the transport connection to host:port failed.
    ConnectError,
    /// The protocol handshake on an open connection failed.
    HandshakeError,
    /// Public-key authentication was rejected or the key file was unreadable.
    AuthError,
    /// The file-transfer sub-session could not be initialized.
    SessionError,
    /// A directory entry could not be read during the initial walk.
    WalkError,
    /// A local path did not lie under its pair's local root.
    PathMappingError {
        /// The offending local path.
        path: String,
    },
    /// Copying one file's bytes to the remote side failed.
    TransferError {
        /// The local path that was being read.
        local: String,
        /// The remote path that was being written.
        remote: String,
    },
    /// The low-level recursive watch could not be established.
    WatchSetupError,
    /// Reading queued change notifications failed; the event stream ended.
    WatchReadError,
}

} // verus!
