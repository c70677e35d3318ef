use server_bot::command::{
    cargo_clean_command, git_cat_file_command, git_clone_command, git_fetch_command,
    git_ls_remote_command, git_reset_command, git_short_hash_command, tool_version_commands,
};
use server_bot::files::File;
use server_bot::process::{exit_result, format_line, parse_output, ProcessError, ProcessUpdate};
use server_bot::settings::Settings;
use server_bot::state::Rev;
use server_bot::status::ServerStatus;

#[test]
fn fetch_command_is_git_fetch_all() {
    let c = git_fetch_command();
    assert_eq!(c.program, "git");
    assert_eq!(c.args, vec!["fetch".to_string(), "--all".to_string()]);
    assert_eq!(c.current_dir.as_deref(), Some("veloren"));
    assert!(c.envs.is_empty());
    assert!(c.removed_envs.is_empty());
}

#[test]
fn reset_targets_remote_ref_for_branches_only() {
    let b = git_reset_command(&Rev::Branch("trunk".to_string()));
    assert_eq!(
        b.args,
        vec!["reset".to_string(), "--hard".to_string(), "origin/trunk".to_string()]
    );
    let c = git_reset_command(&Rev::Commit("0123abcd".to_string()));
    assert_eq!(
        c.args,
        vec!["reset".to_string(), "--hard".to_string(), "0123abcd".to_string()]
    );
}

#[test]
fn clone_command_runs_outside_the_tree() {
    let c = git_clone_command("https://example.invalid/game.git");
    assert_eq!(c.program, "git");
    assert_eq!(
        c.args,
        vec!["clone".to_string(), "https://example.invalid/game.git".to_string()]
    );
    assert_eq!(c.current_dir, None);
}

#[test]
fn revision_resolution_commands() {
    let ls = git_ls_remote_command("https://example.invalid/game.git", "trunk");
    assert_eq!(
        ls.args,
        vec![
            "ls-remote".to_string(),
            "--exit-code".to_string(),
            "--heads".to_string(),
            "https://example.invalid/game.git".to_string(),
            "trunk".to_string(),
        ]
    );
    let cat = git_cat_file_command("0123abcd");
    assert_eq!(
        cat.args,
        vec!["cat-file".to_string(), "-e".to_string(), "0123abcd".to_string()]
    );
}

#[test]
fn clean_and_version_commands() {
    let clean = cargo_clean_command();
    assert_eq!(clean.program, "cargo");
    assert_eq!(clean.args, vec!["clean".to_string()]);
    let hash = git_short_hash_command();
    assert_eq!(
        hash.args,
        vec!["rev-parse".to_string(), "--short".to_string(), "HEAD".to_string()]
    );
}

#[test]
fn tool_probes_cover_the_build_environment() {
    let cs = tool_version_commands();
    assert_eq!(cs.len(), 4);
    assert_eq!(cs[0].program, "git");
    assert_eq!(cs[1].args, vec!["lfs".to_string(), "--version".to_string()]);
    assert_eq!(cs[2].program, "rustup");
    assert_eq!(cs[3].program, "cargo");
    for c in &cs {
        assert_eq!(c.current_dir, None);
    }
}

#[test]
fn exit_zero_is_the_only_success() {
    assert!(exit_result(Some(0)).is_ok());
    assert!(matches!(
        exit_result(Some(101)),
        Err(ProcessError::ProcessFailed(Some(101)))
    ));
    assert!(matches!(exit_result(None), Err(ProcessError::ProcessFailed(None))));
}

#[test]
fn forwarded_lines_are_tagged_and_trimmed() {
    assert_eq!(format_line("git", "  warning: something \t"), "[git] warning: something");
    assert_eq!(format_line("veloren", "ready"), "[veloren] ready");
    assert_eq!(format_line("cargo", "   "), "[cargo] ");
}

#[test]
fn process_updates_log_lines_or_errors() {
    let line = ProcessUpdate::Line("  Compiling core v0.1.0\n".to_string());
    assert_eq!(line.log_text("cargo"), "[cargo] Compiling core v0.1.0");
    let err = ProcessUpdate::Error("broken pipe".to_string());
    assert_eq!(err.log_text("cargo"), "Failed to pipe process output: broken pipe");
}

#[test]
fn captured_output_is_decoded_and_trimmed() {
    assert_eq!(parse_output(&b"abc1234\n".to_vec()), "abc1234");
    assert_eq!(parse_output(&b"  spaced  ".to_vec()), "spaced");
    // Invalid UTF-8 is decoded leniently, not rejected.
    assert_eq!(parse_output(&vec![0xff, b'o', b'k']), "\u{fffd}ok");
}

#[test]
fn status_labels() {
    assert_eq!(ServerStatus::Offline.label(), "Offline");
    assert_eq!(ServerStatus::Updating.label(), "Updating...");
    assert_eq!(ServerStatus::Compiling.label(), "Compiling...");
    assert_eq!(ServerStatus::Online.label(), "Online");
    assert_eq!(ServerStatus::UpdateFailed.label(), "Failed to update");
    assert_eq!(ServerStatus::CompileFailed.label(), "Compile Failed");
    assert_eq!(ServerStatus::RunFailed.label(), "Starting Failed");
}

#[test]
fn managed_file_paths() {
    assert_eq!(
        File::Db.path(),
        "veloren/target/debug/userdata/server/saves/db.sqlite"
    );
    assert_eq!(
        File::Whitelist.path(),
        "veloren/target/debug/userdata/server/server_config/whitelist.ron"
    );
    assert_eq!(
        File::CliSettings.path(),
        "veloren/target/debug/userdata/server-cli/settings.ron"
    );
    assert!(!File::Db.is_text());
    assert!(File::Settings.is_text());
    assert!(File::CliSettings.is_text());
}

#[test]
fn default_settings_are_placeholders() {
    let s = Settings::default();
    assert_eq!(s.token, "DISCORD_BOT_TOKEN_HERE");
    assert_eq!(s.owner, 999999999);
    assert_eq!(s.repository, "https://gitlab.com/veloren/dev/veloren.git");
    assert_eq!(s.prefix, "~");
    assert_eq!(s.web_username, "WEB_LOGS_USERNAME_HERE");
    assert_eq!(s.web_password, "WEB_LOGS_PASSWORD_HERE");
    assert_eq!(s.web_address, "WEB_LOGS_WEBSITE_HERE");
    assert_eq!(s.gameserver_address, "GAMESERVER_ADDRESS_HERE");
}
