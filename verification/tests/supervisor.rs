use server_bot::server::Server;
use server_bot::state::Rev;
use server_bot::status::ServerStatus;

fn branch(name: &str) -> Rev {
    Rev::Branch(name.to_string())
}

#[test]
fn fresh_supervisor_is_offline() {
    let mut s = Server::new();
    assert_eq!(s.current_status(), ServerStatus::Offline);
    assert_eq!(s.version(), None);
    assert_eq!(s.status(Vec::new()), ServerStatus::Offline);
}

#[test]
fn start_begins_a_run() {
    let mut s = Server::new();
    let run = s.start(branch("master"), Vec::new(), Vec::new(), Vec::new());
    assert!(run.is_some());
    assert_eq!(s.current_status(), ServerStatus::Offline);
}

#[test]
fn second_start_is_refused_while_running() {
    let mut s = Server::new();
    let first = s.start(branch("master"), Vec::new(), Vec::new(), Vec::new());
    assert!(first.is_some());
    let second = s.start(branch("master"), Vec::new(), Vec::new(), Vec::new());
    assert!(second.is_none());
    let third = s.start(branch("other"), Vec::new(), Vec::new(), Vec::new());
    assert!(third.is_none());
}

#[test]
fn stop_on_idle_returns_false_and_keeps_status() {
    let mut s = Server::new();
    let pending = vec![ServerStatus::Updating, ServerStatus::UpdateFailed];
    s.start(branch("master"), Vec::new(), Vec::new(), Vec::new());
    s.status(pending);
    s.stop();
    assert_eq!(s.current_status(), ServerStatus::Offline);
    // Now idle: a second stop must not touch anything.
    let mut idle = Server::new();
    idle.apply_event(ServerStatus::CompileFailed);
    assert!(!idle.stop());
    assert_eq!(idle.current_status(), ServerStatus::CompileFailed);
}

#[test]
fn stop_mid_compile_forces_offline() {
    let mut s = Server::new();
    s.start(branch("master"), Vec::new(), Vec::new(), Vec::new());
    let st = s.status(vec![ServerStatus::Updating, ServerStatus::Compiling]);
    assert_eq!(st, ServerStatus::Compiling);
    let was_running = s.stop();
    assert!(was_running);
    assert_eq!(s.current_status(), ServerStatus::Offline);
    assert_eq!(s.status(Vec::new()), ServerStatus::Offline);
}

#[test]
fn restart_equals_stop_then_start() {
    let mut a = Server::new();
    let mut b = Server::new();
    for s in [&mut a, &mut b] {
        s.start(branch("master"), Vec::new(), Vec::new(), Vec::new());
        s.status(vec![
            ServerStatus::Updating,
            ServerStatus::Version("abc1234".to_string()),
            ServerStatus::Compiling,
        ]);
    }
    let run_a = a.restart(branch("master"), Vec::new(), Vec::new(), Vec::new());
    b.stop();
    let run_b = b.start(branch("master"), Vec::new(), Vec::new(), Vec::new());
    assert!(run_a.is_some());
    assert!(run_b.is_some());
    assert_eq!(a.current_status(), b.current_status());
    assert_eq!(a.version(), b.version());
}

#[test]
fn version_updates_only_from_version_events() {
    let mut s = Server::new();
    s.start(branch("master"), Vec::new(), Vec::new(), Vec::new());
    s.status(vec![ServerStatus::Updating, ServerStatus::Compiling, ServerStatus::Online]);
    assert_eq!(s.version(), None);
    s.status(vec![ServerStatus::Version("abc1234".to_string())]);
    assert_eq!(s.version(), Some("abc1234".to_string()));
}

#[test]
fn version_survives_stop_and_failed_runs() {
    let mut s = Server::new();
    s.start(branch("master"), Vec::new(), Vec::new(), Vec::new());
    s.status(vec![
        ServerStatus::Updating,
        ServerStatus::Version("abc1234".to_string()),
        ServerStatus::Compiling,
        ServerStatus::Online,
    ]);
    s.stop();
    assert_eq!(s.version(), Some("abc1234".to_string()));
    // An unrelated failed run leaves the version untouched.
    s.start(branch("does-not-exist-xyz"), Vec::new(), Vec::new(), Vec::new());
    let st = s.status(vec![ServerStatus::Updating, ServerStatus::UpdateFailed]);
    assert_eq!(st, ServerStatus::UpdateFailed);
    assert_eq!(s.version(), Some("abc1234".to_string()));
}

#[test]
fn drain_keeps_last_primary_status() {
    let mut s = Server::new();
    s.start(branch("master"), Vec::new(), Vec::new(), Vec::new());
    let st = s.status(vec![
        ServerStatus::Updating,
        ServerStatus::Version("deadbee".to_string()),
        ServerStatus::Compiling,
        ServerStatus::Online,
        ServerStatus::Offline,
    ]);
    assert_eq!(st, ServerStatus::Offline);
    assert_eq!(s.version(), Some("deadbee".to_string()));
}

#[test]
fn clean_failure_stops_without_restart() {
    let mut s = Server::new();
    s.start(branch("master"), Vec::new(), Vec::new(), Vec::new());
    s.status(vec![ServerStatus::Updating, ServerStatus::Compiling]);
    let (ok, run) = s.clean(false, branch("master"), Vec::new(), Vec::new(), Vec::new());
    assert!(!ok);
    assert!(run.is_none());
    assert_eq!(s.current_status(), ServerStatus::Offline);
    // The supervisor is idle now: a fresh start must be accepted.
    assert!(s.start(branch("master"), Vec::new(), Vec::new(), Vec::new()).is_some());
}

#[test]
fn clean_success_restarts() {
    let mut s = Server::new();
    s.start(branch("master"), Vec::new(), Vec::new(), Vec::new());
    let (ok, run) = s.clean(true, branch("master"), Vec::new(), Vec::new(), Vec::new());
    assert!(ok);
    assert!(run.is_some());
    // A run is active again: another start is refused.
    assert!(s.start(branch("master"), Vec::new(), Vec::new(), Vec::new()).is_none());
}
