//! Descriptions of the external commands the pipeline runs.
//!
//! A [`CommandSpec`] is a plain-value description of one process invocation:
//! program, arguments, working directory and environment adjustments.  The
//! builders here pin down, argument by argument, exactly which commands each
//! pipeline stage hands to the process runner.

use vstd::prelude::*;
use crate::state::Rev;

verus! {

/// One fully configured external command.
#[derive(Debug)]
pub struct CommandSpec {
    /// The executable to spawn.
    pub program: String,
    /// Arguments, in order.
    pub args: Vec<String>,
    /// Working directory, if the command runs inside the checked-out tree.
    pub current_dir: Option<String>,
    /// Environment variables set for the process.
    pub envs: Vec<(String, String)>,
    /// Environment variables removed from the inherited environment.
    pub removed_envs: Vec<String>,
}

/// The character sequences of a sequence of strings.
pub open spec fn views_of(strings: Seq<String>) -> Seq<Seq<char>> {
    strings.map_values(|s: String| s@)
}

impl CommandSpec {
    pub open spec fn args_view(self) -> Seq<Seq<char>> {
        views_of(self.args@)
    }

    pub open spec fn dir_view(self) -> Option<Seq<char>> {
        match self.current_dir {
            Some(d) => Some(d@),
            None => None,
        }
    }

    pub open spec fn envs_view(self) -> Seq<(Seq<char>, Seq<char>)> {
        self.envs@.map_values(|p: (String, String)| (p.0@, p.1@))
    }
}

/// A command with no working directory and an untouched environment.
fn bare_command(program: &str, args: Vec<String>) -> (c: CommandSpec)
    ensures
        c.program@ == program@,
        c.args == args,
        c.current_dir is None,
        c.envs@.len() == 0,
        c.removed_envs@.len() == 0,
{
    CommandSpec {
        program: program.to_owned(),
        args,
        current_dir: None,
        envs: Vec::new(),
        removed_envs: Vec::new(),
    }
}

/// A command run inside the checked-out source tree.
fn repo_command(program: &str, args: Vec<String>) -> (c: CommandSpec)
    ensures
        c.program@ == program@,
        c.args == args,
        c.dir_view() == Some("veloren"@),
        c.envs@.len() == 0,
        c.removed_envs@.len() == 0,
{
    CommandSpec {
        program: program.to_owned(),
        args,
        current_dir: Some("veloren".to_owned()),
        envs: Vec::new(),
        removed_envs: Vec::new(),
    }
}

/// A command of the given program and arguments that runs in the
/// checked-out tree and leaves the environment untouched.
pub open spec fn plain_repo_command_spec(c: CommandSpec, program: Seq<char>, args: Seq<Seq<char>>) -> bool {
    &&& c.program@ == program
    &&& c.args_view() == args
    &&& c.dir_view() == Some("veloren"@)
    &&& c.envs@.len() == 0
    &&& c.removed_envs@.len() == 0
}

/// The command that fetches all remote refs.
pub open spec fn git_fetch_spec(c: CommandSpec) -> bool {
    plain_repo_command_spec(c, "git"@, seq!["fetch"@, "--all"@])
}

/// The command that checks the given revision out, discarding local changes.
pub open spec fn git_checkout_spec(c: CommandSpec, rev: Rev) -> bool {
    plain_repo_command_spec(c, "git"@, seq!["checkout"@, rev.name_view(), "-f"@])
}

/// The command that hard-resets the tree onto the given revision.
pub open spec fn git_reset_spec(c: CommandSpec, rev: Rev) -> bool {
    plain_repo_command_spec(c, "git"@, seq!["reset"@, "--hard"@, reset_target_view(rev)])
}

/// The command that queries the short hash of the checked-out commit.
pub open spec fn git_short_hash_spec(c: CommandSpec) -> bool {
    plain_repo_command_spec(c, "git"@, seq!["rev-parse"@, "--short"@, "HEAD"@])
}

/// The command that clears the build cache.
pub open spec fn cargo_clean_spec(c: CommandSpec) -> bool {
    plain_repo_command_spec(c, "cargo"@, seq!["clean"@])
}

/// The command that compiles the server binary with the given extra
/// build-tool arguments.
pub open spec fn cargo_build_spec(c: CommandSpec, cargo_args: Seq<Seq<char>>) -> bool {
    &&& c.program@ == "cargo"@
    &&& c.args_view() == seq!["build"@, "--bin"@, "veloren-server-cli"@] + cargo_args
    &&& c.dir_view() == Some("veloren"@)
    &&& c.envs@.len() == 0
    &&& c.removed_envs@.map_values(|s: String| s@) == seq!["RUSTUP_TOOLCHAIN"@]
}

/// The command that runs the compiled server binary with the given
/// runtime arguments and environment.
pub open spec fn cargo_run_spec(
    c: CommandSpec,
    args: Seq<Seq<char>>,
    cargo_args: Seq<Seq<char>>,
    envs: Seq<(Seq<char>, Seq<char>)>,
) -> bool {
    &&& c.program@ == "cargo"@
    &&& c.args_view() == seq!["run"@, "--bin"@, "veloren-server-cli"@] + cargo_args + seq!["--"@]
        + args
    &&& c.dir_view() == Some("veloren"@)
    &&& c.envs_view() == envs
    &&& c.removed_envs@.map_values(|s: String| s@) == seq!["RUSTUP_TOOLCHAIN"@]
}

/// Fetches all remote refs of the checked-out tree.
pub fn git_fetch_command() -> (c: CommandSpec)
    ensures
        git_fetch_spec(c),
{
    let mut args: Vec<String> = Vec::new();
    args.push("fetch".to_owned());
    args.push("--all".to_owned());
    let c = repo_command("git", args);
    proof {
        assert(c.args_view() =~= seq!["fetch"@, "--all"@]);
    }
    c
}

/// Checks the requested revision out, discarding local changes.
pub fn git_checkout_command(rev: &Rev) -> (c: CommandSpec)
    ensures
        git_checkout_spec(c, *rev),
{
    let mut args: Vec<String> = Vec::new();
    args.push("checkout".to_owned());
    args.push(rev.name());
    args.push("-f".to_owned());
    let c = repo_command("git", args);
    proof {
        assert(c.args_view() =~= seq!["checkout"@, rev.name_view(), "-f"@]);
    }
    c
}

/// The ref a hard reset aims at: the remote-tracking ref for a branch, the
/// bare hash for a commit.
pub open spec fn reset_target_view(rev: Rev) -> Seq<char> {
    match rev {
        Rev::Branch(b) => "origin/"@ + b@,
        Rev::Commit(c) => c@,
    }
}

/// Hard-resets the working tree onto the requested revision.
pub fn git_reset_command(rev: &Rev) -> (c: CommandSpec)
    ensures
        git_reset_spec(c, *rev),
{
    let target: String = match rev {
        Rev::Branch(b) => {
            let mut t = "origin/".to_owned();
            t.append(b.as_str());
            t
        },
        Rev::Commit(c) => c.clone(),
    };
    let mut args: Vec<String> = Vec::new();
    args.push("reset".to_owned());
    args.push("--hard".to_owned());
    args.push(target);
    let c = repo_command("git", args);
    proof {
        assert(c.args_view() =~= seq!["reset"@, "--hard"@, reset_target_view(*rev)]);
    }
    c
}

/// Queries the short hash of the currently checked-out commit.
pub fn git_short_hash_command() -> (c: CommandSpec)
    ensures
        git_short_hash_spec(c),
{
    let mut args: Vec<String> = Vec::new();
    args.push("rev-parse".to_owned());
    args.push("--short".to_owned());
    args.push("HEAD".to_owned());
    let c = repo_command("git", args);
    proof {
        assert(c.args_view() =~= seq!["rev-parse"@, "--short"@, "HEAD"@]);
    }
    c
}

/// Clones the repository for the very first checkout.
pub fn git_clone_command(repo: &str) -> (c: CommandSpec)
    ensures
        c.program@ == "git"@,
        c.args_view() == seq!["clone"@, repo@],
        c.current_dir is None,
        c.envs@.len() == 0,
        c.removed_envs@.len() == 0,
{
    let mut args: Vec<String> = Vec::new();
    args.push("clone".to_owned());
    args.push(repo.to_owned());
    let c = bare_command("git", args);
    proof {
        assert(c.args_view() =~= seq!["clone"@, repo@]);
    }
    c
}

/// Asks the remote whether a branch of the given name exists.
pub fn git_ls_remote_command(repo: &str, name: &str) -> (c: CommandSpec)
    ensures
        c.program@ == "git"@,
        c.args_view() == seq!["ls-remote"@, "--exit-code"@, "--heads"@, repo@, name@],
        c.dir_view() == Some("veloren"@),
        c.envs@.len() == 0,
        c.removed_envs@.len() == 0,
{
    let mut args: Vec<String> = Vec::new();
    args.push("ls-remote".to_owned());
    args.push("--exit-code".to_owned());
    args.push("--heads".to_owned());
    args.push(repo.to_owned());
    args.push(name.to_owned());
    let c = repo_command("git", args);
    proof {
        assert(c.args_view() =~= seq!["ls-remote"@, "--exit-code"@, "--heads"@, repo@, name@]);
    }
    c
}

/// Tests whether a commit object of the given name exists locally.
pub fn git_cat_file_command(name: &str) -> (c: CommandSpec)
    ensures
        c.program@ == "git"@,
        c.args_view() == seq!["cat-file"@, "-e"@, name@],
        c.dir_view() == Some("veloren"@),
        c.envs@.len() == 0,
        c.removed_envs@.len() == 0,
{
    let mut args: Vec<String> = Vec::new();
    args.push("cat-file".to_owned());
    args.push("-e".to_owned());
    args.push(name.to_owned());
    let c = repo_command("git", args);
    proof {
        assert(c.args_view() =~= seq!["cat-file"@, "-e"@, name@]);
    }
    c
}

/// Clears the build cache of the checked-out tree.
pub fn cargo_clean_command() -> (c: CommandSpec)
    ensures
        cargo_clean_spec(c),
{
    let mut args: Vec<String> = Vec::new();
    args.push("clean".to_owned());
    let c = repo_command("cargo", args);
    proof {
        assert(c.args_view() =~= seq!["clean"@]);
    }
    c
}

/// Appends clones of all strings in `extra` to `args`.
fn push_all(args: &mut Vec<String>, extra: &Vec<String>)
    ensures
        final(args)@.len() == old(args)@.len() + extra@.len(),
        views_of(final(args)@) == views_of(old(args)@) + views_of(extra@),
{
    let ghost orig = args@;
    let mut i: usize = 0;
    while i < extra.len()
        invariant
            i <= extra@.len(),
            args@.len() == orig.len() + i,
            forall|j: int| 0 <= j < orig.len() ==> args@[j] == orig[j],
            forall|j: int| 0 <= j < i ==> (#[trigger] args@[orig.len() + j])@ == extra@[j]@,
        decreases extra@.len() - i,
    {
        args.push(extra[i].clone());
        i += 1;
    }
    proof {
        let l = views_of(args@);
        let r = views_of(orig) + views_of(extra@);
        assert forall|j: int| 0 <= j < l.len() implies l[j] == r[j] by {
            if j < orig.len() {
                assert(args@[j] == orig[j]);
            } else {
                assert(args@[orig.len() + (j - orig.len())]@ == extra@[j - orig.len()]@);
            }
        }
        assert(l =~= r);
    }
}

/// Compiles the server binary with the caller-supplied build arguments.
pub fn cargo_build_command(cargo_args: &Vec<String>) -> (c: CommandSpec)
    ensures
        cargo_build_spec(c, views_of(cargo_args@)),
{
    let mut args: Vec<String> = Vec::new();
    args.push("build".to_owned());
    args.push("--bin".to_owned());
    args.push("veloren-server-cli".to_owned());
    proof {
        assert(views_of(args@) =~= seq!["build"@, "--bin"@, "veloren-server-cli"@]);
    }
    push_all(&mut args, cargo_args);
    let mut removed: Vec<String> = Vec::new();
    removed.push("RUSTUP_TOOLCHAIN".to_owned());
    let c = CommandSpec {
        program: "cargo".to_owned(),
        args,
        current_dir: Some("veloren".to_owned()),
        envs: Vec::new(),
        removed_envs: removed,
    };
    proof {
        assert(c.removed_envs@.map_values(|s: String| s@) =~= seq!["RUSTUP_TOOLCHAIN"@]);
    }
    c
}

/// Runs the compiled server binary, blocking until it exits.
pub fn cargo_run_command(
    args: &Vec<String>,
    cargo_args: &Vec<String>,
    envs: &Vec<(String, String)>,
) -> (c: CommandSpec)
    ensures
        cargo_run_spec(
            c,
            views_of(args@),
            views_of(cargo_args@),
            envs@.map_values(|p: (String, String)| (p.0@, p.1@)),
        ),
{
    let mut cmd_args: Vec<String> = Vec::new();
    cmd_args.push("run".to_owned());
    cmd_args.push("--bin".to_owned());
    cmd_args.push("veloren-server-cli".to_owned());
    proof {
        assert(views_of(cmd_args@) =~= seq!["run"@, "--bin"@, "veloren-server-cli"@]);
    }
    push_all(&mut cmd_args, cargo_args);
    let ghost before_sep = views_of(cmd_args@);
    cmd_args.push("--".to_owned());
    proof {
        assert(views_of(cmd_args@) =~= before_sep + seq!["--"@]);
    }
    push_all(&mut cmd_args, args);

    let mut cmd_envs: Vec<(String, String)> = Vec::new();
    let mut i: usize = 0;
    while i < envs.len()
        invariant
            i <= envs@.len(),
            cmd_envs@.len() == i,
            forall|j: int| 0 <= j < i ==> (#[trigger] cmd_envs@[j]).0@ == envs@[j].0@
                && cmd_envs@[j].1@ == envs@[j].1@,
        decreases envs@.len() - i,
    {
        let pair = &envs[i];
        cmd_envs.push((pair.0.clone(), pair.1.clone()));
        i += 1;
    }
    proof {
        let l = cmd_envs@.map_values(|p: (String, String)| (p.0@, p.1@));
        let r = envs@.map_values(|p: (String, String)| (p.0@, p.1@));
        assert forall|j: int| 0 <= j < l.len() implies l[j] == r[j] by {
            assert(cmd_envs@[j].0@ == envs@[j].0@ && cmd_envs@[j].1@ == envs@[j].1@);
        }
        assert(l =~= r);
    }

    let mut removed: Vec<String> = Vec::new();
    removed.push("RUSTUP_TOOLCHAIN".to_owned());
    let c = CommandSpec {
        program: "cargo".to_owned(),
        args: cmd_args,
        current_dir: Some("veloren".to_owned()),
        envs: cmd_envs,
        removed_envs: removed,
    };
    proof {
        assert(c.removed_envs@.map_values(|s: String| s@) =~= seq!["RUSTUP_TOOLCHAIN"@]);
    }
    c
}

/// The probe commands logged at startup to record the build environment:
/// the versions of the version-control tool, its large-file extension, the
/// toolchain manager and the build tool.
pub fn tool_version_commands() -> (cs: Vec<CommandSpec>)
    ensures
        cs@.len() == 4,
        cs@[0].program@ == "git"@ && cs@[0].args_view() == seq!["--version"@],
        cs@[1].program@ == "git"@ && cs@[1].args_view() == seq!["lfs"@, "--version"@],
        cs@[2].program@ == "rustup"@ && cs@[2].args_view() == seq!["--version"@],
        cs@[3].program@ == "cargo"@ && cs@[3].args_view() == seq!["--version"@],
        forall|i: int| 0 <= i < 4 ==> (#[trigger] cs@[i].current_dir) is None,
{
    let mut git_args: Vec<String> = Vec::new();
    git_args.push("--version".to_owned());
    let git = bare_command("git", git_args);

    let mut lfs_args: Vec<String> = Vec::new();
    lfs_args.push("lfs".to_owned());
    lfs_args.push("--version".to_owned());
    let lfs = bare_command("git", lfs_args);

    let mut rustup_args: Vec<String> = Vec::new();
    rustup_args.push("--version".to_owned());
    let rustup = bare_command("rustup", rustup_args);

    let mut cargo_args: Vec<String> = Vec::new();
    cargo_args.push("--version".to_owned());
    let cargo = bare_command("cargo", cargo_args);

    let mut cs: Vec<CommandSpec> = Vec::new();
    proof {
        assert(git.args_view() =~= seq!["--version"@]);
        assert(lfs.args_view() =~= seq!["lfs"@, "--version"@]);
        assert(rustup.args_view() =~= seq!["--version"@]);
        assert(cargo.args_view() =~= seq!["--version"@]);
    }
    cs.push(git);
    cs.push(lfs);
    cs.push(rustup);
    cs.push(cargo);
    cs
}

} // verus!
