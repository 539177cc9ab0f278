//! The per-pair worker, written as an explicit state machine.
//!
//! One worker owns one `SyncPath` and drives it through
//! `Connecting -> InitialSyncing -> Watching -> Terminated`. The worker only
//! decides; the harness performs the I/O each decision asks for (connecting,
//! walking, watching, copying bytes) and reports what happened back as the
//! next `WorkerEvent`. Every failure is local to the worker's own pair:
//! stepping one worker neither reads nor changes any other.
//!
//! A `Removed` change is handled exactly like `Created` and `Modified`: the
//! worker orders the same create-and-copy transfer, which the harness then
//! fails for want of the local file, ending the pair with `TransferError`.
//! That is this engine's documented delete semantics; a real remote delete
//! would be a deliberate, separate design change.

use crate::config::Config;
use crate::config::SyncPath;
use crate::debounce::ChangeEvent;
use crate::errors::SyncError;
use crate::path_map::map_path;
use crate::path_map::mapped_path;
use crate::path_map::path_under_root;
use vstd::prelude::*;

verus! {

/// The lifecycle phase of one pair's worker.
#[derive(Debug, PartialEq, Eq)]
pub enum WorkerState {
    /// Establishing the transport, handshake, authentication, and the
    /// file-transfer sub-session.
    Connecting,
    /// Running the one-time recursive upload of the local tree.
    InitialSyncing,
    /// Looping: await one debounced change event, map its path, transfer.
    Watching,
    /// Final: the pair has stopped with the given fatal error and processes
    /// no further events. The watch loop is infinite, so in this scope
    /// termination always carries an error; a clean stop happens only by
    /// process shutdown.
    Terminated(SyncError),
}

/// What the harness reports back to the worker: the outcome of the action it
/// was last asked to perform, or the next item of the event stream.
#[derive(Debug, PartialEq, Eq)]
pub enum WorkerEvent {
    /// The session is established and the file-transfer channel is open.
    Established,
    /// Session establishment failed with the given error.
    EstablishFailed(SyncError),
    /// The initial recursive upload finished with the given outcome. Either
    /// way the pair goes on to watch; an error is only logged.
    InitialSyncFinished(Result<(), SyncError>),
    /// The recursive watch on the local root is in place.
    WatchStarted,
    /// The recursive watch could not be established.
    WatchSetupFailed,
    /// One debounced change event arrived.
    Changed(ChangeEvent),
    /// Reading queued change events failed; the event stream has ended.
    WatchReadFailed,
    /// The transfer ordered by the last `Transfer` action succeeded.
    TransferFinished,
    /// The transfer ordered by the last `Transfer` action failed, naming the
    /// local and remote paths involved.
    TransferFailed {
        /// The local path that was being read.
        local: String,
        /// The remote path that was being written.
        remote: String,
    },
}

/// What the worker asks the harness to do next.
#[derive(Debug, PartialEq, Eq)]
pub enum WorkerAction {
    /// Connect to host:port, handshake, authenticate with the private key,
    /// open the file-transfer sub-session.
    Establish,
    /// Enumerate all regular files under the local root and upload each.
    RunInitialSync,
    /// Subscribe the recursive watch on the local root.
    StartWatch,
    /// Block until the next debounced change event.
    AwaitEvent,
    /// Copy the local file at `local` to the remote path `remote`, creating
    /// or truncating the remote file.
    Transfer {
        /// The absolute local path to read.
        local: String,
        /// The absolute remote path to write.
        remote: String,
    },
    /// The event did not apply to the current phase; keep on as before.
    Ignore,
    /// The pair is finished; log the outcome and return.
    Stop,
}

/// One pair's worker: its descriptor and its current phase.
pub struct SyncPairWorker {
    /// The descriptor this worker owns for its whole lifetime.
    pub pair: SyncPath,
    /// The phase the pair is in.
    pub state: WorkerState,
}

impl SyncPairWorker {
    /// A fresh worker for one pair, about to connect.
    pub fn new(pair: SyncPath) -> (w: SyncPairWorker)
        ensures
            w.pair == pair,
            w.state is Connecting,
    {
        SyncPairWorker { pair, state: WorkerState::Connecting }
    }

    /// What the harness must do first for the worker's current phase, before
    /// any event has been produced.
    pub fn initial_action(&self) -> (action: WorkerAction)
        ensures
            match self.state {
                WorkerState::Connecting => action is Establish,
                WorkerState::InitialSyncing => action is RunInitialSync,
                WorkerState::Watching => action is AwaitEvent,
                WorkerState::Terminated(_) => action is Stop,
            },
    {
        match &self.state {
            WorkerState::Connecting => WorkerAction::Establish,
            WorkerState::InitialSyncing => WorkerAction::RunInitialSync,
            WorkerState::Watching => WorkerAction::AwaitEvent,
            WorkerState::Terminated(_) => WorkerAction::Stop,
        }
    }

    /// Advances the state machine by one event and returns the next action.
    ///
    /// The full transition table is the `ensures`: any establishment failure
    /// is terminal at once; the initial sync's outcome is logged but the pair
    /// watches either way; during watching, each change event is mapped and
    /// transferred, and a watch-read failure, a transfer failure, or a path
    /// outside the local root (a mapping bug) is terminal. A terminated
    /// worker processes no further events. Events that do not apply to the
    /// current phase are ignored.
    pub fn step(&mut self, event: WorkerEvent) -> (action: WorkerAction)
        ensures
            final(self).pair == old(self).pair,
            match (old(self).state, event) {
                (WorkerState::Connecting, WorkerEvent::Established) => final(self).state
                    is InitialSyncing && action is RunInitialSync,
                (WorkerState::Connecting, WorkerEvent::EstablishFailed(e)) => final(self).state
                    == WorkerState::Terminated(e) && action is Stop,
                (WorkerState::InitialSyncing, WorkerEvent::InitialSyncFinished(_)) => final(self).state
                    is Watching && action is StartWatch,
                (WorkerState::Watching, WorkerEvent::WatchStarted) => final(self).state is Watching
                    && action is AwaitEvent,
                (WorkerState::Watching, WorkerEvent::WatchSetupFailed) => final(self).state
                    == WorkerState::Terminated(SyncError::WatchSetupError) && action is Stop,
                (WorkerState::Watching, WorkerEvent::Changed(ev)) => if path_under_root(
                    old(self).pair.local_path@,
                    ev.path@,
                ) {
                    &&& final(self).state is Watching
                    &&& (action matches WorkerAction::Transfer { local, remote } && local@
                        == ev.path@ && remote@ == mapped_path(
                        old(self).pair.local_path@,
                        old(self).pair.remote_path@,
                        ev.path@,
                    ))
                } else {
                    &&& (final(self).state matches WorkerState::Terminated(err) && (
                    err matches SyncError::PathMappingError { path } && path@ == ev.path@))
                    &&& action is Stop
                },
                (WorkerState::Watching, WorkerEvent::WatchReadFailed) => final(self).state
                    == WorkerState::Terminated(SyncError::WatchReadError) && action is Stop,
                (WorkerState::Watching, WorkerEvent::TransferFinished) => final(self).state
                    is Watching && action is AwaitEvent,
                (WorkerState::Watching, WorkerEvent::TransferFailed { local, remote }) => {
                    &&& final(self).state == WorkerState::Terminated(
                        SyncError::TransferError { local, remote },
                    )
                    &&& action is Stop
                },
                (WorkerState::Terminated(_), _) => final(self).state == old(self).state && action
                    is Stop,
                _ => final(self).state == old(self).state && action is Ignore,
            },
    {
        match &self.state {
            WorkerState::Connecting => match event {
                WorkerEvent::Established => {
                    self.state = WorkerState::InitialSyncing;
                    WorkerAction::RunInitialSync
                },
                WorkerEvent::EstablishFailed(e) => {
                    self.state = WorkerState::Terminated(e);
                    WorkerAction::Stop
                },
                _ => WorkerAction::Ignore,
            },
            WorkerState::InitialSyncing => match event {
                WorkerEvent::InitialSyncFinished(_) => {
                    self.state = WorkerState::Watching;
                    WorkerAction::StartWatch
                },
                _ => WorkerAction::Ignore,
            },
            WorkerState::Watching => match event {
                WorkerEvent::WatchStarted => WorkerAction::AwaitEvent,
                WorkerEvent::WatchSetupFailed => {
                    self.state = WorkerState::Terminated(SyncError::WatchSetupError);
                    WorkerAction::Stop
                },
                WorkerEvent::Changed(ev) => {
                    let mapped = map_path(
                        self.pair.local_path.as_str(),
                        self.pair.remote_path.as_str(),
                        ev.path.as_str(),
                    );
                    match mapped {
                        Some(remote) => WorkerAction::Transfer { local: ev.path, remote },
                        None => {
                            self.state = WorkerState::Terminated(
                                SyncError::PathMappingError { path: ev.path },
                            );
                            WorkerAction::Stop
                        },
                    }
                },
                WorkerEvent::WatchReadFailed => {
                    self.state = WorkerState::Terminated(SyncError::WatchReadError);
                    WorkerAction::Stop
                },
                WorkerEvent::TransferFinished => WorkerAction::AwaitEvent,
                WorkerEvent::TransferFailed { local, remote } => {
                    self.state = WorkerState::Terminated(
                        SyncError::TransferError { local, remote },
                    );
                    WorkerAction::Stop
                },
                _ => WorkerAction::Ignore,
            },
            WorkerState::Terminated(_) => WorkerAction::Stop,
        }
    }
}

/// Fans the configuration out into one independent worker per pair, in
/// order. The workers share nothing: each owns its descriptor, and a fatal
/// error in one (a failed establishment, a dead watch loop) leaves every
/// other worker's state untouched, since `step` reads and writes only the
/// worker it is called on.
pub fn make_workers(config: Config) -> (workers: Vec<SyncPairWorker>)
    ensures
        workers@.len() == config.paths@.len(),
        forall|i: int|
            0 <= i < workers@.len() ==> #[trigger] workers@[i].pair == config.paths@[i]
                && workers@[i].state is Connecting,
{
    let mut workers: Vec<SyncPairWorker> = Vec::new();
    let mut paths = config.paths;
    let ghost all = paths@;
    let mut i: usize = 0;
    let n = paths.len();
    while i < n
        invariant
            i <= n,
            n == all.len(),
            paths@ == all.subrange(i as int, n as int),
            workers@.len() == i,
            forall|k: int|
                0 <= k < i ==> #[trigger] workers@[k].pair == all[k] && workers@[k].state
                    is Connecting,
        decreases n - i,
    {
        let p = paths.remove(0);
        proof {
            assert(p == all[i as int]);
            assert(paths@ =~= all.subrange(i as int + 1, n as int));
        }
        workers.push(SyncPairWorker::new(p));
        i += 1;
    }
    workers
}

} // verus!
