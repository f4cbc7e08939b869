//! The process supervisor: a two-state machine (idle / running) that owns the
//! optional handle of the one backend child process.
//!
//! The supervisor never touches the OS itself. The caller reports what
//! happened while preparing a start as a [`StartEvent`], and `stop` hands the
//! detached handle back so the caller can deliver the kill signal. Failures
//! to start are non-fatal by design: the backend is a best-effort companion
//! process, and its absence only degrades the application.

use vstd::prelude::*;

use crate::locator::{lemma_no_script_when_nothing_exists, located_script_spec, probe_candidates,
    ScriptProbe};

verus! {

/// How a start attempt ended, mirroring the non-fatal error taxonomy:
/// every script candidate was absent, or the OS refused the spawn.
#[derive(Clone, Copy, PartialEq, Eq, Structural, Debug)]
pub enum StartOutcome {
    /// A child was spawned and its handle is now attached.
    Started,
    /// No script candidate existed on disk; nothing was spawned.
    ScriptNotFound,
    /// A script was found but the spawn was refused.
    SpawnFailure,
}

/// What the caller observed while preparing a start: the script search came
/// up empty, the spawn failed, or the spawn produced a live child handle.
pub enum StartEvent<H> {
    /// The locator found no script; no spawn was attempted.
    ScriptMissing,
    /// A script was found but the OS rejected the spawn.
    SpawnFailed,
    /// The spawn succeeded and produced this handle.
    Spawned(H),
}

/// Owner of the single optional backend process handle. `H` is the handle
/// type: the embedding shell uses the OS child type, tests use a plain mock.
pub struct Supervisor<H> {
    /// The held child handle: `None` while idle, `Some` while running.
    pub handle: Option<H>,
}

/// The state change and outcome of a `start` attempt from state `pre`:
/// only a successful spawn attaches a handle; both failures leave the
/// state untouched.
pub open spec fn start_step<H>(pre: Supervisor<H>, ev: StartEvent<H>) -> (Supervisor<H>, StartOutcome) {
    match ev {
        StartEvent::ScriptMissing => (pre, StartOutcome::ScriptNotFound),
        StartEvent::SpawnFailed => (pre, StartOutcome::SpawnFailure),
        StartEvent::Spawned(h) => (Supervisor { handle: Some(h) }, StartOutcome::Started),
    }
}

/// The state change of a `stop`: the supervisor always ends idle, and the
/// previously held handle (if any) is handed back for termination.
pub open spec fn stop_step<H>(pre: Supervisor<H>) -> (Supervisor<H>, Option<H>) {
    (Supervisor { handle: None }, pre.handle)
}

impl<H> Supervisor<H> {
    /// No handle is held.
    pub open spec fn is_idle(self) -> bool {
        self.handle is None
    }

    /// A handle is held.
    pub open spec fn is_running(self) -> bool {
        self.handle is Some
    }

    /// A fresh supervisor holds no handle.
    pub fn new() -> (s: Self)
        ensures
            s.is_idle(),
    {
        Supervisor { handle: None }
    }

    /// Record the outcome of a start attempt. Valid only while idle; a
    /// successful spawn attaches its handle, and either failure leaves the
    /// supervisor idle with nothing stored.
    pub fn start(&mut self, ev: StartEvent<H>) -> (r: StartOutcome)
        requires
            old(self).is_idle(),
        ensures
            (*final(self), r) == start_step(*old(self), ev),
            final(self).is_running() <==> r == StartOutcome::Started,
    {
        match ev {
            StartEvent::ScriptMissing => StartOutcome::ScriptNotFound,
            StartEvent::SpawnFailed => StartOutcome::SpawnFailure,
            StartEvent::Spawned(h) => {
                self.handle = Some(h);
                StartOutcome::Started
            },
        }
    }

    /// Detach the held handle, if any, and return it so the caller can
    /// terminate the child. Safe in either state: stopping an idle
    /// supervisor is a no-op that returns nothing.
    pub fn stop(&mut self) -> (r: Option<H>)
        ensures
            (*final(self), r) == stop_step(*old(self)),
            final(self).is_idle(),
            r == old(self).handle,
    {
        self.handle.take()
    }
}

/// Law: `stop` is idempotent. From any state, a second `stop` leaves the
/// state exactly where the first left it and detaches nothing.
pub proof fn lemma_stop_idempotent<H>(s: Supervisor<H>)
    ensures
        stop_step(stop_step(s).0).0 == stop_step(s).0,
        stop_step(stop_step(s).0).1 == None::<H>,
{
}

/// Law: a start attempt that did not spawn (script missing or spawn failed)
/// leaves an idle supervisor idle and unchanged, and never reports success.
pub proof fn lemma_failed_start_stays_idle<H>(pre: Supervisor<H>, ev: StartEvent<H>)
    requires
        pre.is_idle(),
        !(ev is Spawned),
    ensures
        start_step(pre, ev).0 == pre,
        start_step(pre, ev).0.is_idle(),
        start_step(pre, ev).1 != StartOutcome::Started,
{
}

/// Law: after a successful start exactly the spawned handle is attached, and
/// the subsequent stop detaches that same handle and leaves the supervisor
/// holding nothing.
pub proof fn lemma_start_then_stop<H>(pre: Supervisor<H>, h: H)
    requires
        pre.is_idle(),
    ensures
        start_step(pre, StartEvent::Spawned(h)).1 == StartOutcome::Started,
        start_step(pre, StartEvent::Spawned(h)).0.handle == Some(h),
        stop_step(start_step(pre, StartEvent::Spawned(h)).0).0.is_idle(),
        stop_step(start_step(pre, StartEvent::Spawned(h)).0).1 == Some(h),
{
}

/// Law: when no script candidate exists on disk, the locator reports no
/// script, and the start attempt that observes this leaves an idle
/// supervisor idle, with no stored handle and a not-found outcome.
pub proof fn lemma_start_without_script_stays_idle<H>(pre: Supervisor<H>, p: ScriptProbe)
    requires
        pre.is_idle(),
        forall|i: int| 0 <= i < probe_candidates(p).len() ==> !(#[trigger] probe_candidates(
            p,
        )[i]).exists,
    ensures
        located_script_spec(p) is None,
        start_step(pre, StartEvent::<H>::ScriptMissing).0.handle is None,
        start_step(pre, StartEvent::<H>::ScriptMissing).1 == StartOutcome::ScriptNotFound,
{
    lemma_no_script_when_nothing_exists(p);
}

/// The one diagnostic shown when the backend could not be started, suggesting
/// a manual launch instead.
pub open spec fn warning_text() -> Seq<char> {
    "warning: failed to spawn FastAPI backend. Launch manually with `python run_backend.py --reload`."@
}

/// The diagnostic owed for a start outcome: exactly the failure outcomes get
/// the warning, a successful start gets none.
pub fn failure_warning(outcome: StartOutcome) -> (r: Option<&'static str>)
    ensures
        r is Some <==> outcome != StartOutcome::Started,
        r matches Some(m) ==> m@ == warning_text(),
{
    match outcome {
        StartOutcome::Started => None,
        StartOutcome::ScriptNotFound => Some(
            "warning: failed to spawn FastAPI backend. Launch manually with `python run_backend.py --reload`.",
        ),
        StartOutcome::SpawnFailure => Some(
            "warning: failed to spawn FastAPI backend. Launch manually with `python run_backend.py --reload`.",
        ),
    }
}

} // verus!
