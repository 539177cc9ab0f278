//! Planning of the one-time recursive upload done at worker startup.
//!
//! The harness enumerates the regular files under the local root (the
//! traversal order is not semantically significant) and hands the absolute
//! paths in; the planner maps each onto its remote path. A path that does
//! not lie under the local root stops planning at once: such a path is a
//! scoping bug, not an I/O mishap. Per-file I/O failures, by contrast, are
//! the harness's to log and skip, and a failed initial sync as a whole is
//! only logged: it is never fatal to the pair.

use crate::errors::SyncError;
use crate::path_map::map_path;
use crate::path_map::mapped_path;
use crate::path_map::path_under_root;
use vstd::prelude::*;

verus! {

/// One planned upload: read the local file, create or truncate the remote
/// file, copy all bytes.
#[derive(Debug, PartialEq, Eq)]
pub struct TransferStep {
    /// The absolute local path to read.
    pub local: String,
    /// The absolute remote path to write.
    pub remote: String,
}

/// Maps every enumerated local file onto its remote path, in traversal
/// order.
///
/// Succeeds exactly when every path lies under `local_root`; each file then
/// gets exactly one step, at its position, whose remote path is
/// `remote_root + (path - local_root)`. Otherwise planning stops at the
/// first offending path with `PathMappingError` naming it.
pub fn plan_initial_sync(local_root: &str, remote_root: &str, files: &Vec<String>) -> (r: Result<
    Vec<TransferStep>,
    SyncError,
>)
    ensures
        r is Ok <==> (forall|i: int|
            0 <= i < files@.len() ==> path_under_root(local_root@, #[trigger] files@[i]@)),
        r is Ok ==> {
            let plan = r->Ok_0;
            &&& plan@.len() == files@.len()
            &&& forall|i: int|
                0 <= i < plan@.len() ==> #[trigger] plan@[i].local@ == files@[i]@
            &&& forall|i: int|
                0 <= i < plan@.len() ==> #[trigger] plan@[i].remote@ == mapped_path(
                    local_root@,
                    remote_root@,
                    files@[i]@,
                )
        },
        r is Err ==> exists|j: int|
            {
                &&& 0 <= j < files@.len()
                &&& !path_under_root(local_root@, #[trigger] files@[j]@)
                &&& (forall|k: int|
                    0 <= k < j ==> path_under_root(local_root@, #[trigger] files@[k]@))
                &&& (r->Err_0 matches SyncError::PathMappingError { path } && path@ == files@[j]@)
            },
{
    let mut plan: Vec<TransferStep> = Vec::new();
    let n = files.len();
    let mut i: usize = 0;
    while i < n
        invariant
            i <= n,
            n == files@.len(),
            plan@.len() == i,
            forall|k: int| 0 <= k < i ==> path_under_root(local_root@, #[trigger] files@[k]@),
            forall|k: int| 0 <= k < i ==> #[trigger] plan@[k].local@ == files@[k]@,
            forall|k: int|
                0 <= k < i ==> #[trigger] plan@[k].remote@ == mapped_path(
                    local_root@,
                    remote_root@,
                    files@[k]@,
                ),
        decreases n - i,
    {
        let local = &files[i];
        match map_path(local_root, remote_root, local.as_str()) {
            Some(remote) => {
                plan.push(TransferStep { local: local.clone(), remote });
            },
            None => {
                return Err(SyncError::PathMappingError { path: local.clone() });
            },
        }
        i += 1;
    }
    Ok(plan)
}

} // verus!
