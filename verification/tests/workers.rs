use rsftp::config::{Config, SyncPath};
use rsftp::debounce::{ChangeEvent, ChangeKind};
use rsftp::errors::SyncError;
use rsftp::worker::{make_workers, SyncPairWorker, WorkerAction, WorkerEvent, WorkerState};

fn pair(name: &str) -> SyncPath {
    SyncPath {
        name: name.to_string(),
        host: "example.com".to_string(),
        port: 22,
        username: "u".to_string(),
        private_key_path: "/home/u/.ssh/id_ed25519".to_string(),
        local_path: "/l".to_string(),
        remote_path: "/r".to_string(),
    }
}

fn changed(kind: ChangeKind, path: &str) -> WorkerEvent {
    WorkerEvent::Changed(ChangeEvent { kind, path: path.to_string() })
}

#[test]
fn fresh_worker_starts_by_establishing() {
    let w = SyncPairWorker::new(pair("p"));
    assert_eq!(w.state, WorkerState::Connecting);
    assert_eq!(w.initial_action(), WorkerAction::Establish);
}

#[test]
fn establish_failure_is_terminal() {
    let mut w = SyncPairWorker::new(pair("p"));
    let a = w.step(WorkerEvent::EstablishFailed(SyncError::ConnectError));
    assert_eq!(a, WorkerAction::Stop);
    assert_eq!(w.state, WorkerState::Terminated(SyncError::ConnectError));
}

#[test]
fn auth_failure_is_terminal() {
    let mut w = SyncPairWorker::new(pair("p"));
    let a = w.step(WorkerEvent::EstablishFailed(SyncError::AuthError));
    assert_eq!(a, WorkerAction::Stop);
    assert_eq!(w.state, WorkerState::Terminated(SyncError::AuthError));
}

#[test]
fn handshake_failure_is_terminal() {
    let mut w = SyncPairWorker::new(pair("p"));
    let a = w.step(WorkerEvent::EstablishFailed(SyncError::HandshakeError));
    assert_eq!(a, WorkerAction::Stop);
    assert_eq!(w.state, WorkerState::Terminated(SyncError::HandshakeError));
}

#[test]
fn session_failure_is_terminal() {
    let mut w = SyncPairWorker::new(pair("p"));
    let a = w.step(WorkerEvent::EstablishFailed(SyncError::SessionError));
    assert_eq!(a, WorkerAction::Stop);
    assert_eq!(w.state, WorkerState::Terminated(SyncError::SessionError));
}

#[test]
fn initial_action_follows_the_phase() {
    let mut w = SyncPairWorker::new(pair("p"));
    assert_eq!(w.initial_action(), WorkerAction::Establish);
    w.step(WorkerEvent::Established);
    assert_eq!(w.initial_action(), WorkerAction::RunInitialSync);
    w.step(WorkerEvent::InitialSyncFinished(Ok(())));
    assert_eq!(w.initial_action(), WorkerAction::AwaitEvent);
    w.step(WorkerEvent::WatchSetupFailed);
    assert_eq!(w.initial_action(), WorkerAction::Stop);
}

#[test]
fn initial_sync_error_is_not_fatal_to_the_pair() {
    let mut w = SyncPairWorker::new(pair("p"));
    assert_eq!(w.step(WorkerEvent::Established), WorkerAction::RunInitialSync);
    let a = w.step(WorkerEvent::InitialSyncFinished(Err(SyncError::WalkError)));
    assert_eq!(a, WorkerAction::StartWatch);
    assert_eq!(w.state, WorkerState::Watching);
}

#[test]
fn created_file_is_transferred_and_watching_goes_on() {
    let mut w = SyncPairWorker::new(pair("p"));
    w.step(WorkerEvent::Established);
    w.step(WorkerEvent::InitialSyncFinished(Ok(())));
    assert_eq!(w.step(WorkerEvent::WatchStarted), WorkerAction::AwaitEvent);
    let a = w.step(changed(ChangeKind::Created, "/l/c.txt"));
    assert_eq!(
        a,
        WorkerAction::Transfer { local: "/l/c.txt".to_string(), remote: "/r/c.txt".to_string() }
    );
    assert_eq!(w.state, WorkerState::Watching);
    assert_eq!(w.step(WorkerEvent::TransferFinished), WorkerAction::AwaitEvent);
    assert_eq!(w.state, WorkerState::Watching);
}

#[test]
fn removed_file_is_reuploaded_and_the_failure_halts_the_pair() {
    let mut w = SyncPairWorker::new(pair("p"));
    w.step(WorkerEvent::Established);
    w.step(WorkerEvent::InitialSyncFinished(Ok(())));
    w.step(WorkerEvent::WatchStarted);
    // the engine orders the same create-and-copy transfer for a removal
    let a = w.step(changed(ChangeKind::Removed, "/l/a.txt"));
    assert_eq!(
        a,
        WorkerAction::Transfer { local: "/l/a.txt".to_string(), remote: "/r/a.txt".to_string() }
    );
    // the local file is gone, so the harness reports the transfer failed
    let a = w.step(WorkerEvent::TransferFailed {
        local: "/l/a.txt".to_string(),
        remote: "/r/a.txt".to_string(),
    });
    assert_eq!(a, WorkerAction::Stop);
    assert_eq!(
        w.state,
        WorkerState::Terminated(SyncError::TransferError {
            local: "/l/a.txt".to_string(),
            remote: "/r/a.txt".to_string(),
        })
    );
    // no further event is processed
    let a = w.step(changed(ChangeKind::Created, "/l/b.txt"));
    assert_eq!(a, WorkerAction::Stop);
    assert_eq!(
        w.state,
        WorkerState::Terminated(SyncError::TransferError {
            local: "/l/a.txt".to_string(),
            remote: "/r/a.txt".to_string(),
        })
    );
}

#[test]
fn watch_setup_failure_is_terminal() {
    let mut w = SyncPairWorker::new(pair("p"));
    w.step(WorkerEvent::Established);
    w.step(WorkerEvent::InitialSyncFinished(Ok(())));
    let a = w.step(WorkerEvent::WatchSetupFailed);
    assert_eq!(a, WorkerAction::Stop);
    assert_eq!(w.state, WorkerState::Terminated(SyncError::WatchSetupError));
}

#[test]
fn watch_read_failure_is_terminal() {
    let mut w = SyncPairWorker::new(pair("p"));
    w.step(WorkerEvent::Established);
    w.step(WorkerEvent::InitialSyncFinished(Ok(())));
    w.step(WorkerEvent::WatchStarted);
    let a = w.step(WorkerEvent::WatchReadFailed);
    assert_eq!(a, WorkerAction::Stop);
    assert_eq!(w.state, WorkerState::Terminated(SyncError::WatchReadError));
}

#[test]
fn event_outside_local_root_is_a_fatal_mapping_bug() {
    let mut w = SyncPairWorker::new(pair("p"));
    w.step(WorkerEvent::Established);
    w.step(WorkerEvent::InitialSyncFinished(Ok(())));
    w.step(WorkerEvent::WatchStarted);
    let a = w.step(changed(ChangeKind::Modified, "/elsewhere/x.txt"));
    assert_eq!(a, WorkerAction::Stop);
    assert_eq!(
        w.state,
        WorkerState::Terminated(SyncError::PathMappingError {
            path: "/elsewhere/x.txt".to_string(),
        })
    );
}

#[test]
fn event_that_does_not_apply_is_ignored() {
    let mut w = SyncPairWorker::new(pair("p"));
    let a = w.step(WorkerEvent::TransferFinished);
    assert_eq!(a, WorkerAction::Ignore);
    assert_eq!(w.state, WorkerState::Connecting);
}

#[test]
fn one_pair_failing_leaves_the_other_running() {
    // pair A cannot connect; pair B completes its initial sync and watches
    let mut a = SyncPairWorker::new(pair("a"));
    let mut b = SyncPairWorker::new(pair("b"));
    assert_eq!(a.step(WorkerEvent::EstablishFailed(SyncError::ConnectError)), WorkerAction::Stop);
    assert_eq!(a.state, WorkerState::Terminated(SyncError::ConnectError));
    assert_eq!(b.step(WorkerEvent::Established), WorkerAction::RunInitialSync);
    assert_eq!(b.step(WorkerEvent::InitialSyncFinished(Ok(()))), WorkerAction::StartWatch);
    assert_eq!(b.step(WorkerEvent::WatchStarted), WorkerAction::AwaitEvent);
    assert_eq!(b.state, WorkerState::Watching);
    let t = b.step(changed(ChangeKind::Created, "/l/c.txt"));
    assert_eq!(
        t,
        WorkerAction::Transfer { local: "/l/c.txt".to_string(), remote: "/r/c.txt".to_string() }
    );
    // A stays where it ended
    assert_eq!(a.state, WorkerState::Terminated(SyncError::ConnectError));
}

#[test]
fn make_workers_gives_each_pair_its_own_worker() {
    let config = Config { paths: vec![pair("a"), pair("b")] };
    let workers = make_workers(config);
    assert_eq!(workers.len(), 2);
    assert_eq!(workers[0].pair.name, "a");
    assert_eq!(workers[1].pair.name, "b");
    assert_eq!(workers[0].state, WorkerState::Connecting);
    assert_eq!(workers[1].state, WorkerState::Connecting);
}
