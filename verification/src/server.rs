//! The supervisor: a single-writer record owning at most one pipeline run
//! at a time, driving it through the ordered stages and exposing a
//! non-blocking status query.
//!
//! The record holds plain values only: whether a run is active, the last
//! observed status and the last discovered version.  The runtime pairs it
//! with the actual task handle and event channel; it asks [`Server::start`]
//! whether to spawn a run, cancels the task when [`Server::stop`] says one
//! was active, and hands every drained event back through
//! [`Server::status`].

use vstd::prelude::*;
use crate::command::views_of;
use crate::pipeline::{Pipeline, Stage, spec_run_events};
use crate::pipeline::lemma_failure_short_circuits;
use crate::state::Rev;
use crate::status::ServerStatus;

verus! {

/// The supervisor record.  `running` mirrors the presence of the task
/// handle in the runtime: it is set when a run is begun and cleared only by
/// `stop`.  `status` and `version` are sticky last-known values that
/// persist across runs.
#[derive(Debug)]
pub struct Server {
    running: bool,
    status: ServerStatus,
    version: Option<String>,
}

impl Server {
    /// Whether a pipeline run is active (the task handle is present).
    pub closed spec fn is_running(self) -> bool {
        self.running
    }

    /// The most recently observed primary status.
    pub closed spec fn status_view(self) -> ServerStatus {
        self.status
    }

    /// The most recently discovered version, if any.
    pub closed spec fn version_view(self) -> Option<String> {
        self.version
    }

    /// The primary status never holds the `Version` side-channel event:
    /// draining folds that event into the version field instead.
    pub open spec fn wf(self) -> bool {
        !(self.status_view() is Version)
    }

    /// The record after a run is begun: only the run flag changes.
    pub closed spec fn spec_after_start(self) -> Server {
        Server { running: true, ..self }
    }

    /// The record after `stop`: an active run is cancelled and the status
    /// forced to `Offline`, whichever stage was interrupted; an idle record
    /// is left untouched.  The version is kept either way.
    pub closed spec fn spec_after_stop(self) -> Server {
        if self.running {
            Server { running: false, status: ServerStatus::Offline, ..self }
        } else {
            self
        }
    }

    /// The record after one drained event: a version event updates the
    /// version field, every other event becomes the primary status.
    pub closed spec fn spec_after_event(self, ev: ServerStatus) -> Server {
        match ev {
            ServerStatus::Version(v) => Server { version: Some(v), ..self },
            _ => Server { status: ev, ..self },
        }
    }

    /// The record after draining `events` in order.
    pub closed spec fn spec_after_events(self, events: Seq<ServerStatus>) -> Server
        decreases events.len(),
    {
        if events.len() == 0 {
            self
        } else {
            self.spec_after_event(events[0]).spec_after_events(events.drop_first())
        }
    }

    /// A fresh supervisor: idle, offline, no version discovered yet.
    pub fn new() -> (s: Server)
        ensures
            !s.is_running(),
            s.status_view() == ServerStatus::Offline,
            s.version_view() is None,
            s.wf(),
    {
        Server { running: false, status: ServerStatus::Offline, version: None }
    }

    /// Begins a run unless one is already active.  Returns the pipeline the
    /// runtime must drive, or `None` if a run was active — a `start` during
    /// a run is a refused no-op, which is what keeps at most one run alive
    /// at any instant.
    pub fn start(
        &mut self,
        rev: Rev,
        args: Vec<String>,
        cargo_args: Vec<String>,
        envs: Vec<(String, String)>,
    ) -> (run: Option<Pipeline>)
        ensures
            *final(self) == old(self).spec_after_start(),
            (run is Some) == !old(self).is_running(),
            old(self).is_running() ==> *final(self) == *old(self),
            final(self).is_running(),
            final(self).status_view() == old(self).status_view(),
            final(self).version_view() == old(self).version_view(),
            old(self).wf() ==> final(self).wf(),
            run matches Some(p) ==> {
                &&& p.stage_view() == Some(Stage::Update)
                &&& p.rev_view() == rev
                &&& p.args_view() == views_of(args@)
                &&& p.cargo_args_view() == views_of(cargo_args@)
                &&& p.envs_view() == envs@.map_values(|pair: (String, String)| (pair.0@, pair.1@))
            },
    {
        if self.running {
            None
        } else {
            self.running = true;
            Some(Pipeline::new(rev, args, cargo_args, envs))
        }
    }

    /// Stops an active run: the runtime must cancel the task, and the
    /// status is forced to `Offline` unconditionally, whichever stage was
    /// interrupted.  On an idle supervisor this returns `false` and changes
    /// nothing.  The last discovered version is kept either way.
    pub fn stop(&mut self) -> (was_running: bool)
        ensures
            *final(self) == old(self).spec_after_stop(),
            was_running == old(self).is_running(),
            !final(self).is_running(),
            was_running ==> final(self).status_view() == ServerStatus::Offline,
            !was_running ==> *final(self) == *old(self),
            final(self).version_view() == old(self).version_view(),
            old(self).wf() ==> final(self).wf(),
    {
        if self.running {
            self.running = false;
            self.status = ServerStatus::Offline;
            true
        } else {
            false
        }
    }

    /// `stop` followed by `start` with the same parameters — no special
    /// fast path, exactly the two calls in sequence, so a restarted
    /// supervisor is observationally the stopped-then-started one.
    pub fn restart(
        &mut self,
        rev: Rev,
        args: Vec<String>,
        cargo_args: Vec<String>,
        envs: Vec<(String, String)>,
    ) -> (run: Option<Pipeline>)
        ensures
            *final(self) == old(self).spec_after_stop().spec_after_start(),
            run is Some,
            final(self).is_running(),
            final(self).status_view() == if old(self).is_running() {
                ServerStatus::Offline
            } else {
                old(self).status_view()
            },
            final(self).version_view() == old(self).version_view(),
            old(self).wf() ==> final(self).wf(),
            run matches Some(p) ==> {
                &&& p.stage_view() == Some(Stage::Update)
                &&& p.rev_view() == rev
                &&& p.args_view() == views_of(args@)
                &&& p.cargo_args_view() == views_of(cargo_args@)
                &&& p.envs_view() == envs@.map_values(|pair: (String, String)| (pair.0@, pair.1@))
            },
    {
        self.stop();
        self.start(rev, args, cargo_args, envs)
    }

    /// Records the decision of a `clean`: the supervisor is stopped first;
    /// when the cache-clearing command succeeded (`clean_ok`) a fresh run
    /// begins, otherwise nothing is started and the call reports failure.
    pub fn clean(
        &mut self,
        clean_ok: bool,
        rev: Rev,
        args: Vec<String>,
        cargo_args: Vec<String>,
        envs: Vec<(String, String)>,
    ) -> (r: (bool, Option<Pipeline>))
        ensures
            r.0 == clean_ok,
            clean_ok ==> *final(self) == old(self).spec_after_stop().spec_after_start()
                && r.1 is Some && final(self).is_running(),
            !clean_ok ==> *final(self) == old(self).spec_after_stop() && r.1 is None
                && !final(self).is_running(),
            final(self).status_view() == if old(self).is_running() {
                ServerStatus::Offline
            } else {
                old(self).status_view()
            },
            final(self).version_view() == old(self).version_view(),
            old(self).wf() ==> final(self).wf(),
            r.1 matches Some(p) ==> {
                &&& p.stage_view() == Some(Stage::Update)
                &&& p.rev_view() == rev
                &&& p.args_view() == views_of(args@)
                &&& p.cargo_args_view() == views_of(cargo_args@)
                &&& p.envs_view() == envs@.map_values(|pair: (String, String)| (pair.0@, pair.1@))
            },
    {
        self.stop();
        if clean_ok {
            let run = self.start(rev, args, cargo_args, envs);
            (true, run)
        } else {
            (false, None)
        }
    }

    /// Folds one drained event into the record.
    pub fn apply_event(&mut self, ev: ServerStatus)
        ensures
            *final(self) == old(self).spec_after_event(ev),
            final(self).is_running() == old(self).is_running(),
            old(self).wf() ==> final(self).wf(),
            !(ev is Version) ==> final(self).wf(),
    {
        match ev {
            ServerStatus::Version(v) => { self.version = Some(v) },
            other => { self.status = other },
        }
    }

    /// Returns the current status after draining every pending event, in
    /// delivery order, without blocking: version events update the version
    /// field, all others become the primary status, and the last primary
    /// status drained is what the caller observes.
    pub fn status(&mut self, pending: Vec<ServerStatus>) -> (st: ServerStatus)
        ensures
            *final(self) == old(self).spec_after_events(pending@),
            st == final(self).status_view(),
            final(self).is_running() == old(self).is_running(),
            st == match last_primary(pending@) {
                Some(p) => p,
                None => old(self).status_view(),
            },
            final(self).version_view() == match last_version(pending@) {
                Some(v) => Some(v),
                None => old(self).version_view(),
            },
    {
        proof {
            lemma_drain_observables(*old(self), pending@);
        }
        let ghost s0 = *self;
        let mut i: usize = 0;
        while i < pending.len()
            invariant
                i <= pending@.len(),
                *self == s0.spec_after_events(pending@.subrange(0, i as int)),
            decreases pending@.len() - i,
        {
            let ev = pending[i].clone();
            self.apply_event(ev);
            proof {
                lemma_after_events_snoc(s0, pending@.subrange(0, i as int), pending@[i as int]);
                assert(pending@.subrange(0, i + 1 as int) =~= pending@.subrange(0, i as int).push(
                    pending@[i as int],
                ));
            }
            i += 1;
        }
        proof {
            assert(pending@.subrange(0, pending@.len() as int) =~= pending@);
            lemma_after_events_keep_running(s0, pending@);
        }
        self.current_status()
    }

    /// The sticky status, without draining anything.
    pub fn current_status(&self) -> (st: ServerStatus)
        ensures
            st == self.status_view(),
    {
        self.status.clone()
    }

    /// The last discovered version, or `None` if none has been discovered
    /// in this process's lifetime.  Not reset by `stop`.
    pub fn version(&self) -> (v: Option<String>)
        ensures
            v == self.version_view(),
    {
        match &self.version {
            Some(x) => Some(x.clone()),
            None => None,
        }
    }
}

/// The last primary (non-version) status among the events, if any.
pub open spec fn last_primary(events: Seq<ServerStatus>) -> Option<ServerStatus>
    decreases events.len(),
{
    if events.len() == 0 {
        None
    } else if !(events.last() is Version) {
        Some(events.last())
    } else {
        last_primary(events.drop_last())
    }
}

/// The last version carried by a version event among the events, if any.
pub open spec fn last_version(events: Seq<ServerStatus>) -> Option<String>
    decreases events.len(),
{
    if events.len() == 0 {
        None
    } else {
        match events.last() {
            ServerStatus::Version(v) => Some(v),
            _ => last_version(events.drop_last()),
        }
    }
}

/// What a drain leaves behind, stated over the events alone: the status
/// becomes the last primary status drained (or stays put), the version the
/// last one discovered (or stays put).
pub proof fn lemma_drain_observables(s: Server, events: Seq<ServerStatus>)
    ensures
        s.spec_after_events(events).status_view() == match last_primary(events) {
            Some(p) => p,
            None => s.status_view(),
        },
        s.spec_after_events(events).version_view() == match last_version(events) {
            Some(v) => Some(v),
            None => s.version_view(),
        },
    decreases events.len(),
{
    if events.len() != 0 {
        lemma_drain_observables(s, events.drop_last());
        assert(events.drop_last().push(events.last()) =~= events);
        lemma_after_events_snoc(s, events.drop_last(), events.last());
    }
}

/// Draining events one more event at a time composes: the record after
/// `events` then `ev` is the record after `events.push(ev)`.
pub proof fn lemma_after_events_snoc(s: Server, events: Seq<ServerStatus>, ev: ServerStatus)
    ensures
        s.spec_after_events(events.push(ev)) == s.spec_after_events(events).spec_after_event(ev),
    decreases events.len(),
{
    if events.len() == 0 {
        assert(events.push(ev)[0] == ev);
        assert(events.push(ev).drop_first() =~= Seq::<ServerStatus>::empty());
        assert(s.spec_after_events(events.push(ev)) == s.spec_after_event(ev).spec_after_events(
            Seq::<ServerStatus>::empty(),
        ));
        assert(s.spec_after_event(ev).spec_after_events(Seq::<ServerStatus>::empty())
            == s.spec_after_event(ev));
        assert(s.spec_after_events(events) == s);
    } else {
        assert(events.push(ev)[0] == events[0]);
        assert(events.push(ev).drop_first() =~= events.drop_first().push(ev));
        lemma_after_events_snoc(s.spec_after_event(events[0]), events.drop_first(), ev);
        assert(s.spec_after_events(events.push(ev)) == s.spec_after_event(
            events[0],
        ).spec_after_events(events.drop_first().push(ev)));
        assert(s.spec_after_events(events) == s.spec_after_event(events[0]).spec_after_events(
            events.drop_first(),
        ));
    }
}

/// At most one pipeline run is active at any instant: beginning a run on a
/// supervisor that already has one changes nothing — in particular, a
/// second `start` issued before the first run completes is refused.
pub proof fn lemma_start_while_running_is_noop(s: Server)
    requires
        s.is_running(),
    ensures
        s.spec_after_start() == s,
{
}

/// `stop` on an idle supervisor reports `false` and leaves the record —
/// its status included — untouched.
pub proof fn lemma_stop_idle_is_noop(s: Server)
    requires
        !s.is_running(),
    ensures
        s.spec_after_stop() == s,
{
}

/// `stop` on an active supervisor always yields an idle record whose
/// status is `Offline`, regardless of which stage was active when the run
/// was cancelled; the discovered version survives.
pub proof fn lemma_stop_always_offline(s: Server)
    ensures
        !s.spec_after_stop().is_running(),
        s.is_running() ==> s.spec_after_stop().status_view() == ServerStatus::Offline,
        s.spec_after_stop().version_view() == s.version_view(),
{
}

/// Draining events never begins or ends a run: the run flag is changed by
/// `start` and `stop` alone.
pub proof fn lemma_after_events_keep_running(s: Server, events: Seq<ServerStatus>)
    ensures
        s.spec_after_events(events).is_running() == s.is_running(),
    decreases events.len(),
{
    if events.len() != 0 {
        lemma_after_events_keep_running(s.spec_after_event(events[0]), events.drop_first());
    }
}

/// Draining events that contain no version event never changes the
/// discovered version: `version` is updated by version events alone.
pub proof fn lemma_events_without_version_keep_version(s: Server, events: Seq<ServerStatus>)
    requires
        forall|i: int| 0 <= i < events.len() ==> !(#[trigger] events[i] is Version),
    ensures
        s.spec_after_events(events).version_view() == s.version_view(),
    decreases events.len(),
{
    if events.len() != 0 {
        assert(!(events[0] is Version));
        lemma_events_without_version_keep_version(s.spec_after_event(events[0]), events.drop_first());
    }
}

/// What an entire run leaves behind once its events are drained: the
/// status settles at the stage the run ended at — `UpdateFailed`,
/// `CompileFailed`, `RunFailed`, or `Offline` after a clean shutdown — and
/// the version becomes the discovered one exactly when the update stage
/// succeeded and the checkout was identified.
pub proof fn lemma_run_outcome_observed(
    s: Server,
    update_ok: bool,
    version: Option<String>,
    compile_ok: bool,
    run_ok: bool,
)
    ensures
        s.spec_after_events(
            spec_run_events(update_ok, version, compile_ok, run_ok),
        ).status_view() == if !update_ok || version is None {
            ServerStatus::UpdateFailed
        } else if !compile_ok {
            ServerStatus::CompileFailed
        } else if !run_ok {
            ServerStatus::RunFailed
        } else {
            ServerStatus::Offline
        },
        s.spec_after_events(
            spec_run_events(update_ok, version, compile_ok, run_ok),
        ).version_view() == if update_ok && version is Some {
            version
        } else {
            s.version_view()
        },
{
    let events = spec_run_events(update_ok, version, compile_ok, run_ok);
    lemma_drain_observables(s, events);
    reveal_with_fuel(last_primary, 6);
    reveal_with_fuel(last_version, 6);
    if !update_ok || version is None {
        assert(events =~= seq![ServerStatus::Updating, ServerStatus::UpdateFailed]);
    }
}

/// The discovered version persists across a failed run: draining all the
/// events of a run whose update stage failed (or whose checkout could not
/// be identified) leaves `version` exactly as it was.
pub proof fn lemma_failed_update_run_keeps_version(
    s: Server,
    update_ok: bool,
    version: Option<String>,
    compile_ok: bool,
    run_ok: bool,
)
    requires
        !(update_ok && version is Some),
    ensures
        s.spec_after_events(
            spec_run_events(update_ok, version, compile_ok, run_ok),
        ).version_view() == s.version_view(),
{
    lemma_failure_short_circuits(update_ok, version, compile_ok, run_ok);
    lemma_events_without_version_keep_version(
        s,
        spec_run_events(update_ok, version, compile_ok, run_ok),
    );
}

} // verus!
