//! The load generator's state machine: one synthetic stress test per
//! kind (CPU, GPU), each independently `Idle -> Running -> Idle`.
//!
//! The registry decides; the application acts. On a successful start
//! the application installs a shared cancellation flag and spawns the
//! workers (one per physical core for the CPU kind, a single driver
//! loop for the GPU kind); on stop it flips the flag, and workers
//! observe it cooperatively at iteration boundaries. At most one test
//! per kind is ever live: starting while one is active is a caller
//! error, not silently coalesced.

use vstd::prelude::*;

use crate::error::LoadError;

verus! {

/// The two kinds of synthetic load test.
#[derive(Clone, Copy, Debug, PartialEq, Eq, Structural)]
pub enum LoadKind {
    Cpu,
    Gpu,
}

/// The explicit registry of live load tests, one slot per kind.
#[derive(Clone, Copy, Debug, PartialEq, Eq, Structural)]
pub struct LoadRegistry {
    pub cpu_running: bool,
    pub gpu_running: bool,
}

impl LoadRegistry {
    /// Whether a test of the kind is live.
    pub open spec fn running(self, kind: LoadKind) -> bool {
        match kind {
            LoadKind::Cpu => self.cpu_running,
            LoadKind::Gpu => self.gpu_running,
        }
    }

    /// The registry with the kind's slot marked live.
    pub open spec fn spec_with_running(self, kind: LoadKind) -> LoadRegistry {
        match kind {
            LoadKind::Cpu => LoadRegistry { cpu_running: true, ..self },
            LoadKind::Gpu => LoadRegistry { gpu_running: true, ..self },
        }
    }

    /// The registry with the kind's slot cleared.
    pub open spec fn spec_with_stopped(self, kind: LoadKind) -> LoadRegistry {
        match kind {
            LoadKind::Cpu => LoadRegistry { cpu_running: false, ..self },
            LoadKind::Gpu => LoadRegistry { gpu_running: false, ..self },
        }
    }

    /// Both kinds idle.
    pub fn new() -> (r: LoadRegistry)
        ensures
            !r.running(LoadKind::Cpu),
            !r.running(LoadKind::Gpu),
    {
        LoadRegistry { cpu_running: false, gpu_running: false }
    }

    /// Starts a test of the kind: fails with `AlreadyRunning` and
    /// changes nothing when one is live, otherwise marks the kind live
    /// (the other kind's slot is untouched either way). On `Ok` the
    /// application installs the cancellation flag and spawns the
    /// workers.
    pub fn start(&mut self, kind: LoadKind) -> (r: Result<(), LoadError>)
        ensures
            (r, *final(self)) == spec_start(*old(self), kind),
    {
        if self.is_running(kind) {
            return Err(LoadError::AlreadyRunning);
        }
        match kind {
            LoadKind::Cpu => self.cpu_running = true,
            LoadKind::Gpu => self.gpu_running = true,
        }
        Ok(())
    }

    /// Stops the test of the kind, reporting whether one was live.
    /// Stopping an idle kind is a no-op: no error, no state change. On
    /// `true` the application flips the cancellation flag; the workers
    /// exit at their next iteration boundary, never mid-iteration.
    pub fn stop(&mut self, kind: LoadKind) -> (was_running: bool)
        ensures
            (was_running, *final(self)) == spec_stop(*old(self), kind),
    {
        let was = self.is_running(kind);
        match kind {
            LoadKind::Cpu => self.cpu_running = false,
            LoadKind::Gpu => self.gpu_running = false,
        }
        was
    }

    /// Whether a test of the kind is live.
    pub fn is_running(&self, kind: LoadKind) -> (r: bool)
        ensures
            r == self.running(kind),
    {
        match kind {
            LoadKind::Cpu => self.cpu_running,
            LoadKind::Gpu => self.gpu_running,
        }
    }
}

/// The start transition: its result and the next registry state.
pub open spec fn spec_start(s: LoadRegistry, kind: LoadKind) -> (Result<(), LoadError>,
    LoadRegistry,
) {
    if s.running(kind) {
        (Err(LoadError::AlreadyRunning), s)
    } else {
        (Ok(()), s.spec_with_running(kind))
    }
}

/// The stop transition: whether a test was live, and the next state.
pub open spec fn spec_stop(s: LoadRegistry, kind: LoadKind) -> (bool, LoadRegistry) {
    (s.running(kind), s.spec_with_stopped(kind))
}

/// The planned worker count of a test: one worker per physical core
/// for the CPU kind, one driver loop for the GPU kind.
pub fn planned_workers(kind: LoadKind, physical_cores: usize) -> (r: usize)
    ensures
        kind == LoadKind::Cpu ==> r == physical_cores,
        kind == LoadKind::Gpu ==> r == 1,
{
    match kind {
        LoadKind::Cpu => physical_cores,
        LoadKind::Gpu => 1,
    }
}

/// Starting the same kind twice without an intervening stop succeeds
/// once and then fails with `AlreadyRunning`, leaving exactly the one
/// running test in place: the second start changes no state, and the
/// other kind's slot is untouched throughout.
pub proof fn lemma_start_twice_same_kind(s0: LoadRegistry, kind: LoadKind)
    requires
        !s0.running(kind),
    ensures
        spec_start(s0, kind).0 is Ok,
        spec_start(s0, kind).1.running(kind),
        spec_start(spec_start(s0, kind).1, kind).0 == Err::<(), LoadError>(
            LoadError::AlreadyRunning,
        ),
        spec_start(spec_start(s0, kind).1, kind).1 == spec_start(s0, kind).1,
        forall|other: LoadKind|
            other != kind ==> spec_start(spec_start(s0, kind).1, kind).1.running(other)
                == s0.running(other),
{
}

/// Stopping when no test of the kind is running is a no-op: it reports
/// `false` and the registry is unchanged.
pub proof fn lemma_stop_idle_is_noop(s0: LoadRegistry, kind: LoadKind)
    requires
        !s0.running(kind),
    ensures
        spec_stop(s0, kind).0 == false,
        spec_stop(s0, kind).1 == s0,
{
}

} // verus!
