use server_bot::pipeline::{Pipeline, Stage, StageOutcome};
use server_bot::server::Server;
use server_bot::state::Rev;
use server_bot::status::ServerStatus;

fn fresh(rev: &str) -> Pipeline {
    Pipeline::new(Rev::Branch(rev.to_string()), Vec::new(), Vec::new(), Vec::new())
}

/// Drives a pipeline to its end, collecting every emitted event, with the
/// given outcome for each stage.
fn drive(p: &mut Pipeline, mut outcome_for: impl FnMut(Stage) -> StageOutcome) -> Vec<ServerStatus> {
    let mut events = Vec::new();
    while let Some(stage) = p.current_stage() {
        events.extend(p.entry_events());
        events.extend(p.advance(outcome_for(stage)));
    }
    events
}

#[test]
fn successful_run_emits_statuses_in_pipeline_order() {
    let mut p = fresh("master");
    let events = drive(&mut p, |stage| match stage {
        Stage::QueryVersion => StageOutcome::SuccessWithOutput("abc1234".to_string()),
        _ => StageOutcome::Success,
    });
    assert_eq!(
        events,
        vec![
            ServerStatus::Updating,
            ServerStatus::Version("abc1234".to_string()),
            ServerStatus::Compiling,
            ServerStatus::Online,
            ServerStatus::Offline,
        ]
    );
    assert!(p.finished());
}

#[test]
fn fresh_tree_scenario_reaches_online_with_version() {
    // A first run on a fresh working tree: every stage succeeds and the
    // version query reports a short hash of at least seven characters.
    let mut s = Server::new();
    let run = s.start(Rev::Branch("master".to_string()), Vec::new(), Vec::new(), Vec::new());
    assert!(run.is_some());
    let mut p = run.unwrap();

    assert_eq!(s.status(p.entry_events()), ServerStatus::Updating);
    assert_eq!(s.status(p.advance(StageOutcome::Success)), ServerStatus::Updating);
    s.status(p.advance(StageOutcome::SuccessWithOutput("1a2b3c4".to_string())));
    assert_eq!(s.status(p.entry_events()), ServerStatus::Compiling);
    assert_eq!(s.status(p.advance(StageOutcome::Success)), ServerStatus::Compiling);
    assert_eq!(s.status(p.entry_events()), ServerStatus::Online);
    assert_eq!(s.status(p.advance(StageOutcome::Success)), ServerStatus::Offline);

    assert!(p.finished());
    let version = s.version().unwrap();
    assert_eq!(version, "1a2b3c4");
    assert!(version.len() >= 7);
}

#[test]
fn unresolvable_revision_scenario_ends_update_failed() {
    let mut s = Server::new();
    s.start(Rev::Branch("master".to_string()), Vec::new(), Vec::new(), Vec::new());
    s.status(vec![ServerStatus::Version("abc1234".to_string())]);
    s.stop();

    let run = s.start(
        Rev::Branch("does-not-exist-xyz".to_string()),
        Vec::new(),
        Vec::new(),
        Vec::new(),
    );
    let mut p = run.unwrap();
    let mut events = Vec::new();
    events.extend(p.entry_events());
    events.extend(p.advance(StageOutcome::Failure));
    assert_eq!(events, vec![ServerStatus::Updating, ServerStatus::UpdateFailed]);
    assert!(p.finished());

    assert_eq!(s.status(events), ServerStatus::UpdateFailed);
    // The version is unchanged from before the failed call.
    assert_eq!(s.version(), Some("abc1234".to_string()));
}

#[test]
fn update_failure_emits_nothing_of_later_stages() {
    let mut p = fresh("master");
    let events = drive(&mut p, |_| StageOutcome::Failure);
    assert_eq!(events, vec![ServerStatus::Updating, ServerStatus::UpdateFailed]);
}

#[test]
fn unidentifiable_checkout_counts_as_update_failure() {
    let mut p = fresh("master");
    let events = drive(&mut p, |stage| match stage {
        Stage::QueryVersion => StageOutcome::Success,
        _ => StageOutcome::Success,
    });
    assert_eq!(events, vec![ServerStatus::Updating, ServerStatus::UpdateFailed]);
}

#[test]
fn compile_failure_stops_before_online() {
    let mut p = fresh("master");
    let events = drive(&mut p, |stage| match stage {
        Stage::QueryVersion => StageOutcome::SuccessWithOutput("abc1234".to_string()),
        Stage::Compile => StageOutcome::Failure,
        _ => StageOutcome::Success,
    });
    assert_eq!(
        events,
        vec![
            ServerStatus::Updating,
            ServerStatus::Version("abc1234".to_string()),
            ServerStatus::Compiling,
            ServerStatus::CompileFailed,
        ]
    );
}

#[test]
fn run_failure_ends_run_failed() {
    let mut p = fresh("master");
    let events = drive(&mut p, |stage| match stage {
        Stage::QueryVersion => StageOutcome::SuccessWithOutput("abc1234".to_string()),
        Stage::RunServer => StageOutcome::Failure,
        _ => StageOutcome::Success,
    });
    assert_eq!(
        events,
        vec![
            ServerStatus::Updating,
            ServerStatus::Version("abc1234".to_string()),
            ServerStatus::Compiling,
            ServerStatus::Online,
            ServerStatus::RunFailed,
        ]
    );
}

#[test]
fn advancing_a_finished_run_changes_nothing() {
    let mut p = fresh("master");
    drive(&mut p, |_| StageOutcome::Failure);
    assert!(p.finished());
    assert!(p.advance(StageOutcome::Success).is_empty());
    assert!(p.entry_events().is_empty());
    assert!(p.commands().is_empty());
    assert!(p.finished());
}

#[test]
fn update_stage_runs_fetch_checkout_reset() {
    let p = fresh("master");
    let cs = p.commands();
    assert_eq!(cs.len(), 3);
    assert_eq!(cs[0].program, "git");
    assert_eq!(cs[0].args, vec!["fetch".to_string(), "--all".to_string()]);
    assert_eq!(cs[1].args, vec!["checkout".to_string(), "master".to_string(), "-f".to_string()]);
    assert_eq!(
        cs[2].args,
        vec!["reset".to_string(), "--hard".to_string(), "origin/master".to_string()]
    );
    for c in &cs {
        assert_eq!(c.current_dir.as_deref(), Some("veloren"));
    }
}

#[test]
fn later_stages_use_the_run_parameters() {
    let mut p = Pipeline::new(
        Rev::Commit("0123abcd".to_string()),
        vec!["-b".to_string()],
        vec!["--release".to_string()],
        vec![("RUST_LOG".to_string(), "info".to_string())],
    );
    let cs = p.commands();
    assert_eq!(
        cs[2].args,
        vec!["reset".to_string(), "--hard".to_string(), "0123abcd".to_string()]
    );

    p.advance(StageOutcome::Success);
    let version_cs = p.commands();
    assert_eq!(version_cs.len(), 1);
    assert_eq!(
        version_cs[0].args,
        vec!["rev-parse".to_string(), "--short".to_string(), "HEAD".to_string()]
    );

    p.advance(StageOutcome::SuccessWithOutput("abc1234".to_string()));
    let build_cs = p.commands();
    assert_eq!(
        build_cs[0].args,
        vec![
            "build".to_string(),
            "--bin".to_string(),
            "veloren-server-cli".to_string(),
            "--release".to_string(),
        ]
    );
    assert_eq!(build_cs[0].removed_envs, vec!["RUSTUP_TOOLCHAIN".to_string()]);

    p.advance(StageOutcome::Success);
    let run_cs = p.commands();
    assert_eq!(
        run_cs[0].args,
        vec![
            "run".to_string(),
            "--bin".to_string(),
            "veloren-server-cli".to_string(),
            "--release".to_string(),
            "--".to_string(),
            "-b".to_string(),
        ]
    );
    assert_eq!(run_cs[0].envs, vec![("RUST_LOG".to_string(), "info".to_string())]);
}
