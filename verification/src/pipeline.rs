//! The four-stage run a supervisor schedules: update the tree, discover the
//! checked-out version, compile the server binary, run it.
//!
//! [`Pipeline`] is the decision core of one run.  The runtime drives it:
//! before a stage it emits the stage's [`entry events`](Pipeline::entry_events)
//! and executes the stage's [`commands`](Pipeline::commands); afterwards it
//! reports the outcome to [`advance`](Pipeline::advance), which yields the
//! events the stage's completion emits and moves to the next stage.  A failed
//! stage ends the run: no later stage executes and no later stage's status is
//! ever emitted.

use vstd::prelude::*;
use crate::command::{
    CommandSpec, cargo_build_command, cargo_build_spec, cargo_run_command, cargo_run_spec,
    git_checkout_command, git_checkout_spec, git_fetch_command, git_fetch_spec,
    git_reset_command, git_reset_spec, git_short_hash_command, git_short_hash_spec, views_of,
};
use crate::state::Rev;
use crate::status::ServerStatus;

verus! {

/// The ordered stages of one run.
#[derive(Debug, Clone, Copy, PartialEq, Eq, Structural)]
pub enum Stage {
    Update,
    QueryVersion,
    Compile,
    RunServer,
}

/// What the runtime reports back when a stage's external work is done.
#[derive(Debug)]
pub enum StageOutcome {
    /// Every command of the stage exited successfully.
    Success,
    /// As `Success`, with the trimmed output the stage captured (the
    /// version query reports the short commit hash this way).
    SuccessWithOutput(String),
    /// A command failed to spawn, exited non-zero, or its output could not
    /// be drained.
    Failure,
}

/// One run of the pipeline: the parameters it was started with and the
/// stage it is at.  `stage` is `None` once the run has ended.
pub struct Pipeline {
    rev: Rev,
    args: Vec<String>,
    cargo_args: Vec<String>,
    envs: Vec<(String, String)>,
    stage: Option<Stage>,
}

/// The status announced when a stage begins.  The version query announces
/// nothing: it reports only through its completion event.
pub open spec fn spec_entry_events(stage: Option<Stage>) -> Seq<ServerStatus> {
    match stage {
        Some(Stage::Update) => seq![ServerStatus::Updating],
        Some(Stage::QueryVersion) => Seq::empty(),
        Some(Stage::Compile) => seq![ServerStatus::Compiling],
        Some(Stage::RunServer) => seq![ServerStatus::Online],
        None => Seq::empty(),
    }
}

/// The stage that follows a completed stage.  Any failure ends the run, as
/// does a version query that produced no output: a checkout that cannot be
/// identified is not trusted.
pub open spec fn spec_next_stage(stage: Stage, outcome: StageOutcome) -> Option<Stage> {
    match stage {
        Stage::Update => match outcome {
            StageOutcome::Failure => None,
            _ => Some(Stage::QueryVersion),
        },
        Stage::QueryVersion => match outcome {
            StageOutcome::SuccessWithOutput(_) => Some(Stage::Compile),
            _ => None,
        },
        Stage::Compile => match outcome {
            StageOutcome::Failure => None,
            _ => Some(Stage::RunServer),
        },
        Stage::RunServer => None,
    }
}

/// The events a stage's completion emits.  Failures map to the stage's
/// terminal status; a version query that cannot identify the checkout counts
/// as an update failure; a clean server exit reports `Offline`.
pub open spec fn spec_exit_events(stage: Stage, outcome: StageOutcome) -> Seq<ServerStatus> {
    match stage {
        Stage::Update => match outcome {
            StageOutcome::Failure => seq![ServerStatus::UpdateFailed],
            _ => Seq::empty(),
        },
        Stage::QueryVersion => match outcome {
            StageOutcome::SuccessWithOutput(v) => seq![ServerStatus::Version(v)],
            _ => seq![ServerStatus::UpdateFailed],
        },
        Stage::Compile => match outcome {
            StageOutcome::Failure => seq![ServerStatus::CompileFailed],
            _ => Seq::empty(),
        },
        Stage::RunServer => match outcome {
            StageOutcome::Failure => seq![ServerStatus::RunFailed],
            _ => seq![ServerStatus::Offline],
        },
    }
}

impl Pipeline {
    pub closed spec fn stage_view(self) -> Option<Stage> {
        self.stage
    }

    pub closed spec fn rev_view(self) -> Rev {
        self.rev
    }

    pub closed spec fn args_view(self) -> Seq<Seq<char>> {
        views_of(self.args@)
    }

    pub closed spec fn cargo_args_view(self) -> Seq<Seq<char>> {
        views_of(self.cargo_args@)
    }

    pub closed spec fn envs_view(self) -> Seq<(Seq<char>, Seq<char>)> {
        self.envs@.map_values(|p: (String, String)| (p.0@, p.1@))
    }

    /// The run parameters of `self` and `other` agree.
    pub open spec fn same_run(self, other: Pipeline) -> bool {
        &&& self.rev_view() == other.rev_view()
        &&& self.args_view() == other.args_view()
        &&& self.cargo_args_view() == other.cargo_args_view()
        &&& self.envs_view() == other.envs_view()
    }

    /// A fresh run over the given parameters, about to update the tree.
    pub fn new(
        rev: Rev,
        args: Vec<String>,
        cargo_args: Vec<String>,
        envs: Vec<(String, String)>,
    ) -> (p: Pipeline)
        ensures
            p.stage_view() == Some(Stage::Update),
            p.rev_view() == rev,
            p.args_view() == views_of(args@),
            p.cargo_args_view() == views_of(cargo_args@),
            p.envs_view() == envs@.map_values(|pair: (String, String)| (pair.0@, pair.1@)),
    {
        Pipeline { rev, args, cargo_args, envs, stage: Some(Stage::Update) }
    }

    /// The stage the run is at, or `None` when it has ended.
    pub fn current_stage(&self) -> (s: Option<Stage>)
        ensures
            s == self.stage_view(),
    {
        match self.stage {
            Some(st) => Some(st),
            None => None,
        }
    }

    /// Whether the run has ended.
    pub fn finished(&self) -> (b: bool)
        ensures
            b == (self.stage_view() is None),
    {
        match self.stage {
            Some(_) => false,
            None => true,
        }
    }

    /// The events to emit when the current stage begins.
    pub fn entry_events(&self) -> (events: Vec<ServerStatus>)
        ensures
            events@ == spec_entry_events(self.stage_view()),
    {
        let mut events: Vec<ServerStatus> = Vec::new();
        match self.stage {
            Some(Stage::Update) => events.push(ServerStatus::Updating),
            Some(Stage::QueryVersion) => (),
            Some(Stage::Compile) => events.push(ServerStatus::Compiling),
            Some(Stage::RunServer) => events.push(ServerStatus::Online),
            None => (),
        }
        proof {
            assert(events@ =~= spec_entry_events(self.stage_view()));
        }
        events
    }

    /// The external commands the current stage runs, in order.  The runtime
    /// executes them one by one and stops at the first failure.
    pub fn commands(&self) -> (cs: Vec<CommandSpec>)
        ensures
            match self.stage_view() {
                Some(Stage::Update) => {
                    &&& cs@.len() == 3
                    &&& git_fetch_spec(cs@[0])
                    &&& git_checkout_spec(cs@[1], self.rev_view())
                    &&& git_reset_spec(cs@[2], self.rev_view())
                },
                Some(Stage::QueryVersion) => cs@.len() == 1 && git_short_hash_spec(cs@[0]),
                Some(Stage::Compile) => cs@.len() == 1 && cargo_build_spec(
                    cs@[0],
                    self.cargo_args_view(),
                ),
                Some(Stage::RunServer) => cs@.len() == 1 && cargo_run_spec(
                    cs@[0],
                    self.args_view(),
                    self.cargo_args_view(),
                    self.envs_view(),
                ),
                None => cs@.len() == 0,
            },
    {
        let mut cs: Vec<CommandSpec> = Vec::new();
        match self.stage {
            Some(Stage::Update) => {
                cs.push(git_fetch_command());
                cs.push(git_checkout_command(&self.rev));
                cs.push(git_reset_command(&self.rev));
            },
            Some(Stage::QueryVersion) => {
                cs.push(git_short_hash_command());
            },
            Some(Stage::Compile) => {
                cs.push(cargo_build_command(&self.cargo_args));
            },
            Some(Stage::RunServer) => {
                cs.push(cargo_run_command(&self.args, &self.cargo_args, &self.envs));
            },
            None => (),
        }
        cs
    }

    /// Records the outcome of the current stage: returns the events its
    /// completion emits and moves to the following stage.  After the run has
    /// ended, reporting further outcomes changes nothing.
    pub fn advance(&mut self, outcome: StageOutcome) -> (events: Vec<ServerStatus>)
        ensures
            final(self).same_run(*old(self)),
            match old(self).stage_view() {
                Some(st) => {
                    &&& final(self).stage_view() == spec_next_stage(st, outcome)
                    &&& events@ == spec_exit_events(st, outcome)
                },
                None => final(self).stage_view() is None && events@.len() == 0,
            },
    {
        let mut events: Vec<ServerStatus> = Vec::new();
        let next: Option<Stage> = match (&self.stage, outcome) {
            (Some(Stage::Update), StageOutcome::Failure) => {
                events.push(ServerStatus::UpdateFailed);
                None
            },
            (Some(Stage::Update), _) => Some(Stage::QueryVersion),
            (Some(Stage::QueryVersion), StageOutcome::SuccessWithOutput(v)) => {
                events.push(ServerStatus::Version(v));
                Some(Stage::Compile)
            },
            (Some(Stage::QueryVersion), _) => {
                events.push(ServerStatus::UpdateFailed);
                None
            },
            (Some(Stage::Compile), StageOutcome::Failure) => {
                events.push(ServerStatus::CompileFailed);
                None
            },
            (Some(Stage::Compile), _) => Some(Stage::RunServer),
            (Some(Stage::RunServer), StageOutcome::Failure) => {
                events.push(ServerStatus::RunFailed);
                None
            },
            (Some(Stage::RunServer), _) => {
                events.push(ServerStatus::Offline);
                None
            },
            (None, _) => None,
        };
        self.stage = next;
        events
    }
}

/// The outcome the runtime would report for each stage of a run whose
/// update commands succeed iff `update_ok`, whose version query yields
/// `version`, and whose compile and run succeed iff `compile_ok` / `run_ok`.
pub open spec fn spec_outcome_for(
    stage: Stage,
    update_ok: bool,
    version: Option<String>,
    compile_ok: bool,
    run_ok: bool,
) -> StageOutcome {
    match stage {
        Stage::Update => if update_ok {
            StageOutcome::Success
        } else {
            StageOutcome::Failure
        },
        Stage::QueryVersion => match version {
            Some(v) => StageOutcome::SuccessWithOutput(v),
            None => StageOutcome::Failure,
        },
        Stage::Compile => if compile_ok {
            StageOutcome::Success
        } else {
            StageOutcome::Failure
        },
        Stage::RunServer => if run_ok {
            StageOutcome::Success
        } else {
            StageOutcome::Failure
        },
    }
}

/// Every event a run emits from `stage` on, when the stages' outcomes are
/// as described: each stage's entry events, then its completion events,
/// then the rest of the run.  `fuel` bounds the number of stages taken and
/// is at most 4 for a whole run.
pub open spec fn spec_trace_from(
    stage: Option<Stage>,
    update_ok: bool,
    version: Option<String>,
    compile_ok: bool,
    run_ok: bool,
    fuel: nat,
) -> Seq<ServerStatus>
    decreases fuel,
{
    match stage {
        None => Seq::empty(),
        Some(st) => if fuel == 0 {
            Seq::empty()
        } else {
            let outcome = spec_outcome_for(st, update_ok, version, compile_ok, run_ok);
            spec_entry_events(Some(st)) + spec_exit_events(st, outcome) + spec_trace_from(
                spec_next_stage(st, outcome),
                update_ok,
                version,
                compile_ok,
                run_ok,
                (fuel - 1) as nat,
            )
        },
    }
}

/// The ordered event sequences a whole run can emit, one per place the run
/// can end: an update or version-query failure stops the run at
/// `UpdateFailed`; a compile failure at `CompileFailed`; a run failure at
/// `RunFailed`; a clean server exit passes `Online` and settles at
/// `Offline`.
pub open spec fn spec_run_events(
    update_ok: bool,
    version: Option<String>,
    compile_ok: bool,
    run_ok: bool,
) -> Seq<ServerStatus> {
    if !update_ok {
        seq![ServerStatus::Updating, ServerStatus::UpdateFailed]
    } else {
        match version {
            None => seq![ServerStatus::Updating, ServerStatus::UpdateFailed],
            Some(v) => if !compile_ok {
                seq![
                    ServerStatus::Updating,
                    ServerStatus::Version(v),
                    ServerStatus::Compiling,
                    ServerStatus::CompileFailed,
                ]
            } else if !run_ok {
                seq![
                    ServerStatus::Updating,
                    ServerStatus::Version(v),
                    ServerStatus::Compiling,
                    ServerStatus::Online,
                    ServerStatus::RunFailed,
                ]
            } else {
                seq![
                    ServerStatus::Updating,
                    ServerStatus::Version(v),
                    ServerStatus::Compiling,
                    ServerStatus::Online,
                    ServerStatus::Offline,
                ]
            },
        }
    }
}

/// Status transitions within one run occur in pipeline order: a whole run,
/// driven stage by stage from `Update`, emits exactly the ordered sequence
/// `spec_run_events` describes for its outcomes.
pub proof fn lemma_run_trace(
    update_ok: bool,
    version: Option<String>,
    compile_ok: bool,
    run_ok: bool,
)
    ensures
        spec_trace_from(Some(Stage::Update), update_ok, version, compile_ok, run_ok, 4)
            == spec_run_events(update_ok, version, compile_ok, run_ok),
{
    reveal_with_fuel(spec_trace_from, 5);
    if !update_ok {
        assert(spec_trace_from(Some(Stage::Update), update_ok, version, compile_ok, run_ok, 4)
            =~= spec_run_events(update_ok, version, compile_ok, run_ok));
    } else {
        match version {
            None => {
                assert(spec_trace_from(
                    Some(Stage::Update),
                    update_ok,
                    version,
                    compile_ok,
                    run_ok,
                    4,
                ) =~= spec_run_events(update_ok, version, compile_ok, run_ok));
            },
            Some(v) => {
                assert(spec_trace_from(
                    Some(Stage::Update),
                    update_ok,
                    version,
                    compile_ok,
                    run_ok,
                    4,
                ) =~= spec_run_events(update_ok, version, compile_ok, run_ok));
            },
        }
    }
}

/// A failure at one stage never emits a status of a later stage: after a
/// failed update (or an unidentifiable checkout) neither `Compiling`,
/// `Online`, `Offline` nor any version event appears; after a failed
/// compile neither `Online` nor `Offline` appears.
pub proof fn lemma_failure_short_circuits(
    update_ok: bool,
    version: Option<String>,
    compile_ok: bool,
    run_ok: bool,
)
    ensures
        !(update_ok && version is Some) ==> {
            let events = spec_run_events(update_ok, version, compile_ok, run_ok);
            &&& !events.contains(ServerStatus::Compiling)
            &&& !events.contains(ServerStatus::Online)
            &&& !events.contains(ServerStatus::Offline)
            &&& forall|i: int| 0 <= i < events.len() ==> !(#[trigger] events[i] is Version)
        },
        update_ok && version is Some && !compile_ok ==> {
            let events = spec_run_events(update_ok, version, compile_ok, run_ok);
            &&& !events.contains(ServerStatus::Online)
            &&& !events.contains(ServerStatus::Offline)
        },
{
    let events = spec_run_events(update_ok, version, compile_ok, run_ok);
    if !(update_ok && version is Some) {
        assert(events =~= seq![ServerStatus::Updating, ServerStatus::UpdateFailed]);
        assert(forall|i: int| 0 <= i < events.len() ==> !(#[trigger] events[i] is Compiling));
        assert(forall|i: int| 0 <= i < events.len() ==> !(#[trigger] events[i] is Online));
        assert(forall|i: int| 0 <= i < events.len() ==> !(#[trigger] events[i] is Offline));
    } else if !compile_ok {
        assert(forall|i: int| 0 <= i < events.len() ==> !(#[trigger] events[i] is Online));
        assert(forall|i: int| 0 <= i < events.len() ==> !(#[trigger] events[i] is Offline));
    }
}

/// A version event appears in a run's events only when the update stage
/// succeeded and the version query identified the checkout — and then the
/// event carries exactly that version.
pub proof fn lemma_version_event_needs_update(
    update_ok: bool,
    version: Option<String>,
    compile_ok: bool,
    run_ok: bool,
    i: int,
)
    requires
        0 <= i < spec_run_events(update_ok, version, compile_ok, run_ok).len(),
        spec_run_events(update_ok, version, compile_ok, run_ok)[i] is Version,
    ensures
        update_ok,
        version is Some,
        spec_run_events(update_ok, version, compile_ok, run_ok)[i]
            == ServerStatus::Version(version.unwrap()),
{
}

} // verus!
