//! The worker slot: at most one live child process at a time.
//!
//! The supervisor owns the decision logic of the slot; the surrounding
//! application performs the side effects (probing, spawning, killing) and
//! reports what happened.  A start call first asks `start_decision` what to
//! do with the handle it holds — a worker that still runs is kept, which
//! makes start idempotent — and records a commanded spawn with
//! `record_spawn`; a stop call records the confirmed termination with
//! `record_stop`.  The model counts spawns so the idempotence law is visible.

use vstd::prelude::*;

verus! {

/// What probing the held process handle showed.
pub enum ProbeResult {
    /// The child has not exited.
    StillRunning,
    /// The child has exited, or its status could not be read.
    Exited,
}

/// What a start call must do with the slot.
pub enum StartAction {
    /// A live worker is already there: do nothing.
    KeepCurrent,
    /// Spawn a fresh worker to fill the slot.
    SpawnNew,
}

/// The supervisor's mathematical state: whether a process handle is held, and
/// how many spawns it has commanded.
pub struct SupervisorModel {
    pub has_handle: bool,
    pub spawn_count: u64,
}

/// Supervises the single worker slot.
pub struct Supervisor {
    has_handle: bool,
    spawn_count: u64,
}

impl View for Supervisor {
    type V = SupervisorModel;

    closed spec fn view(&self) -> SupervisorModel {
        SupervisorModel { has_handle: self.has_handle, spawn_count: self.spawn_count }
    }
}

/// Whether a probe shows a live worker.
pub open spec fn spec_alive(probe: Option<ProbeResult>) -> bool {
    probe == Some(ProbeResult::StillRunning)
}

/// What a start call does, given what the probe showed: only a worker that
/// still runs is kept.
pub open spec fn spec_start_action(probe: Option<ProbeResult>) -> StartAction {
    if spec_alive(probe) {
        StartAction::KeepCurrent
    } else {
        StartAction::SpawnNew
    }
}

/// The model after a commanded spawn: the handle is live exactly if the spawn
/// succeeded (a failed spawn leaves any defunct handle in place), and the
/// spawn is counted.
pub open spec fn spec_record_spawn(m: SupervisorModel, ok: bool) -> SupervisorModel {
    SupervisorModel { has_handle: ok || m.has_handle, spawn_count: (m.spawn_count + 1) as u64 }
}

/// The model after a stop call: a confirmed termination clears the slot; an
/// unconfirmed one leaves it as it was.
pub open spec fn spec_record_stop(m: SupervisorModel, confirmed: bool) -> SupervisorModel {
    SupervisorModel { has_handle: m.has_handle && !confirmed, spawn_count: m.spawn_count }
}

/// The model after one whole start call, given what the probe showed and
/// whether the spawn — if one was commanded — produced a live handle.
pub open spec fn spec_start(
    m: SupervisorModel,
    probe: Option<ProbeResult>,
    spawn_ok: bool,
) -> SupervisorModel {
    if spec_start_action(probe) == StartAction::KeepCurrent {
        m
    } else {
        spec_record_spawn(m, spawn_ok)
    }
}

impl Supervisor {
    /// An empty slot: no handle, nothing spawned.
    pub fn new() -> (s: Supervisor)
        ensures
            s@ == (SupervisorModel { has_handle: false, spawn_count: 0 }),
    {
        Supervisor { has_handle: false, spawn_count: 0 }
    }

    /// Decides what a start call must do.  The caller probes the handle it
    /// holds and passes the result; no handle, no probe.
    pub fn start_decision(&self, probe: Option<ProbeResult>) -> (a: StartAction)
        requires
            self@.has_handle <==> probe is Some,
        ensures
            a == spec_start_action(probe),
    {
        match probe {
            Some(ProbeResult::StillRunning) => StartAction::KeepCurrent,
            _ => StartAction::SpawnNew,
        }
    }

    /// Records a commanded spawn and whether it produced a live handle.
    pub fn record_spawn(&mut self, ok: bool)
        requires
            old(self)@.spawn_count < u64::MAX,
        ensures
            final(self)@ == spec_record_spawn(old(self)@, ok),
    {
        if ok {
            self.has_handle = true;
        }
        self.spawn_count = self.spawn_count + 1;
    }

    /// Records a stop call and whether the termination was confirmed.
    pub fn record_stop(&mut self, confirmed: bool)
        ensures
            final(self)@ == spec_record_stop(old(self)@, confirmed),
    {
        if confirmed {
            self.has_handle = false;
        }
    }

    /// How many spawns this supervisor has commanded.
    pub fn spawns(&self) -> (n: u64)
        ensures
            n == self@.spawn_count,
    {
        self.spawn_count
    }

    /// Non-blocking check that a handle is held.  A crashed worker whose
    /// exit has not yet been observed still counts; report actual liveness
    /// with `liveness`, from a probe.
    pub fn is_running(&self) -> (r: bool)
        ensures
            r == self@.has_handle,
    {
        self.has_handle
    }

    /// Liveness of the actual process, judged from a probe of the held
    /// handle: true exactly when a child is there and has not exited.  This
    /// is the status to report to callers; handle presence alone would
    /// mistake a crashed worker for a running one.
    pub fn liveness(&self, probe: Option<ProbeResult>) -> (r: bool)
        requires
            self@.has_handle <==> probe is Some,
        ensures
            r == spec_alive(probe),
    {
        match probe {
            Some(ProbeResult::StillRunning) => true,
            _ => false,
        }
    }
}

/// Law: start is idempotent.  A live worker probes as still running, so after
/// a start whose spawn succeeded, a second start with no stop in between
/// keeps that worker and spawns nothing: exactly one live process, exactly
/// one spawn.
pub proof fn lemma_idempotent_start(
    m: SupervisorModel,
    probe: Option<ProbeResult>,
    later_ok: bool,
)
    requires
        m.spawn_count < u64::MAX,
        probe == Some(ProbeResult::StillRunning) ==> m.has_handle,
    ensures
        spec_start(spec_start(m, probe, true), Some(ProbeResult::StillRunning), later_ok)
            == spec_start(m, probe, true),
        spec_start(m, probe, true).has_handle,
        spec_start(m, probe, true).spawn_count <= m.spawn_count + 1,
{
}

} // verus!
