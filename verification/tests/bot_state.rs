use server_bot::state::{Rev, State};

#[test]
fn default_state_targets_the_main_branch() {
    let s = State::default();
    assert_eq!(s.rev(), &Rev::Branch("master".to_string()));
    assert!(s.admins().is_empty());
    assert!(s.args().is_empty());
    assert!(s.cargo_args().is_empty());
    assert_eq!(
        s.envs(),
        &vec![
            ("RUST_BACKTRACE".to_string(), "1".to_string()),
            (
                "RUST_LOG".to_string(),
                "debug,uvth=error,rustls=error,tiny_http=warn,veloren_network=warn,dot_vox=warn"
                    .to_string()
            ),
        ]
    );
}

#[test]
fn arguments_keep_insertion_order_without_duplicates() {
    let mut s = State::default();
    s.add_arg("-b");
    s.add_arg("--no-auth");
    s.add_arg("-q");
    assert_eq!(
        s.args(),
        vec!["-b".to_string(), "--no-auth".to_string(), "-q".to_string()]
    );
    // A repeated argument is held once and moves to the end.
    s.add_arg("-b");
    assert_eq!(
        s.args(),
        vec!["--no-auth".to_string(), "-q".to_string(), "-b".to_string()]
    );
}

#[test]
fn removing_an_argument_keeps_the_rest_in_order() {
    let mut s = State::default();
    s.add_args(vec!["-b".to_string(), "--no-auth".to_string(), "-q".to_string()]);
    s.remove_arg("--no-auth");
    assert_eq!(s.args(), vec!["-b".to_string(), "-q".to_string()]);
    // Removing an absent argument changes nothing.
    s.remove_arg("--missing");
    assert_eq!(s.args(), vec!["-b".to_string(), "-q".to_string()]);
}

#[test]
fn reset_args_restores_the_default_flag() {
    let mut s = State::default();
    s.add_args(vec!["-x".to_string(), "-y".to_string()]);
    s.reset_args();
    assert_eq!(s.args(), vec!["-b".to_string()]);
}

#[test]
fn cargo_arguments_mirror_the_gameserver_ones() {
    let mut s = State::default();
    s.add_cargo_arg("--release");
    s.add_cargo_args(vec!["--features".to_string(), "worldgen".to_string()]);
    assert_eq!(
        s.cargo_args(),
        vec!["--release".to_string(), "--features".to_string(), "worldgen".to_string()]
    );
    s.remove_cargo_arg("--features");
    assert_eq!(s.cargo_args(), vec!["--release".to_string(), "worldgen".to_string()]);
    s.clear_cargo_args();
    assert!(s.cargo_args().is_empty());
}

#[test]
fn environment_binds_each_key_once() {
    let mut s = State::default();
    s.reset_envs();
    s.add_env("RUST_LOG", "info");
    let envs = s.envs().clone();
    assert_eq!(envs.len(), 2);
    assert_eq!(envs[0].0, "RUST_BACKTRACE");
    // Rebinding drops the old pair and appends the new one.
    assert_eq!(envs[1], ("RUST_LOG".to_string(), "info".to_string()));
    s.remove_env("RUST_BACKTRACE");
    assert_eq!(s.envs().len(), 1);
    assert_eq!(s.envs()[0].0, "RUST_LOG");
    s.remove_env("UNBOUND");
    assert_eq!(s.envs().len(), 1);
}

#[test]
fn admins_are_a_set_with_owner_privilege() {
    let mut s = State::default();
    s.add_admin(42);
    s.add_admin(7);
    s.add_admin(42);
    assert_eq!(s.admins(), &vec![42, 7]);
    assert!(s.is_admin(1, 42));
    assert!(s.is_admin(1, 7));
    assert!(s.is_admin(1, 1)); // the owner
    assert!(!s.is_admin(1, 99));
    s.remove_admin(42);
    assert_eq!(s.admins(), &vec![7]);
}

#[test]
fn revision_resolution_prefers_branches() {
    let mut s = State::default();
    assert!(s.set_rev("trunk", true, false));
    assert_eq!(s.rev(), &Rev::Branch("trunk".to_string()));
    // A branch wins even when a commit of the same name exists.
    assert!(s.set_rev("0123abcd", true, true));
    assert_eq!(s.rev(), &Rev::Branch("0123abcd".to_string()));
    assert!(s.set_rev("0123abcd", false, true));
    assert_eq!(s.rev(), &Rev::Commit("0123abcd".to_string()));
    // An unresolvable name is rejected and the revision is kept.
    assert!(!s.set_rev("does-not-exist-xyz", false, false));
    assert_eq!(s.rev(), &Rev::Commit("0123abcd".to_string()));
}

#[test]
fn assemble_restores_uniqueness_of_loaded_values() {
    let s = State::assemble(
        Rev::Commit("0123abcd".to_string()),
        vec![5, 5, 9],
        vec!["-b".to_string(), "-b".to_string(), "-q".to_string()],
        vec!["--release".to_string()],
        vec![
            ("A".to_string(), "1".to_string()),
            ("A".to_string(), "2".to_string()),
        ],
    );
    assert_eq!(s.rev(), &Rev::Commit("0123abcd".to_string()));
    assert_eq!(s.admins(), &vec![5, 9]);
    assert_eq!(s.args(), vec!["-b".to_string(), "-q".to_string()]);
    assert_eq!(s.cargo_args(), vec!["--release".to_string()]);
    assert_eq!(s.envs(), &vec![("A".to_string(), "2".to_string())]);
}

#[test]
fn revision_names() {
    assert_eq!(Rev::Branch("trunk".to_string()).name(), "trunk");
    assert_eq!(Rev::Commit("0123abcd".to_string()).name(), "0123abcd");
}
