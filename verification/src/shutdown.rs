//! Coordinated shutdown: `Running -> Draining -> Stopped`.
//!
//! A termination signal moves the coordinator out of `Running`; from then on
//! no new connection is admitted. Connection tasks already in flight are
//! never cancelled: the coordinator reaches `Stopped` exactly by seeing each
//! of them finish, so no client observes a reset while a response is in
//! flight. The event loop drives one coordinator and asks it about every
//! accept, signal and task completion.

use vstd::prelude::*;

verus! {

/// Where the daemon stands in its lifetime.
#[derive(Clone, Copy, Debug, PartialEq, Eq, Structural)]
pub enum Phase {
    /// Accepting connections.
    Running,
    /// A termination signal arrived; finishing in-flight work only.
    Draining,
    /// All work done; the process may exit.
    Stopped,
}

/// The shutdown coordinator: the phase plus the number of connection tasks
/// in flight.
#[derive(Clone, Copy, Debug, PartialEq, Eq, Structural)]
pub struct Coordinator {
    pub phase: Phase,
    pub active: usize,
}

/// A coordinator never claims to have stopped while a task is in flight.
pub open spec fn wf(c: Coordinator) -> bool {
    c.phase is Stopped ==> c.active == 0
}

/// A termination signal: `Running` drains, and with nothing in flight stops
/// at once; a repeated signal changes nothing.
pub open spec fn spec_signal(c: Coordinator) -> Coordinator {
    if c.phase is Running {
        if c.active == 0 {
            Coordinator { phase: Phase::Stopped, ..c }
        } else {
            Coordinator { phase: Phase::Draining, ..c }
        }
    } else {
        c
    }
}

/// A connection offered to the coordinator: admitted, and tracked, only
/// while running.
pub open spec fn spec_accept(c: Coordinator) -> (Coordinator, bool) {
    if c.phase is Running && c.active < usize::MAX {
        (Coordinator { active: (c.active + 1) as usize, ..c }, true)
    } else {
        (c, false)
    }
}

/// One in-flight task finished; the last one to finish during a drain stops
/// the coordinator.
pub open spec fn spec_task_done(c: Coordinator) -> Coordinator {
    let remaining = (c.active - 1) as usize;
    Coordinator {
        phase: if c.phase is Draining && remaining == 0 {
            Phase::Stopped
        } else {
            c.phase
        },
        active: remaining,
    }
}

/// The state after `k` in-flight tasks have finished.
pub open spec fn spec_run_tasks(c: Coordinator, k: nat) -> Coordinator
    decreases k,
{
    if k == 0 {
        c
    } else {
        spec_run_tasks(spec_task_done(c), (k - 1) as nat)
    }
}

impl Coordinator {
    /// A daemon starts running with no connection in flight.
    pub fn new() -> (c: Coordinator)
        ensures
            c.phase is Running,
            c.active == 0,
            wf(c),
    {
        Coordinator { phase: Phase::Running, active: 0 }
    }

    /// Record a termination signal.
    pub fn on_signal(&mut self)
        requires
            wf(*old(self)),
        ensures
            *final(self) == spec_signal(*old(self)),
            wf(*final(self)),
            !(final(self).phase is Running),
    {
        if matches!(self.phase, Phase::Running) {
            if self.active == 0 {
                self.phase = Phase::Stopped;
            } else {
                self.phase = Phase::Draining;
            }
        }
    }

    /// Offer a newly accepted connection; `true` says it was admitted and is
    /// now tracked as in flight.
    pub fn on_accept(&mut self) -> (admitted: bool)
        requires
            wf(*old(self)),
        ensures
            (*final(self), admitted) == spec_accept(*old(self)),
            wf(*final(self)),
            admitted ==> old(self).phase is Running,
    {
        if matches!(self.phase, Phase::Running) && self.active < usize::MAX {
            self.active = self.active + 1;
            true
        } else {
            false
        }
    }

    /// Record that one in-flight connection task has finished.
    pub fn on_task_done(&mut self)
        requires
            wf(*old(self)),
            old(self).active > 0,
        ensures
            *final(self) == spec_task_done(*old(self)),
            wf(*final(self)),
    {
        self.active = self.active - 1;
        if matches!(self.phase, Phase::Draining) && self.active == 0 {
            self.phase = Phase::Stopped;
        }
    }

    /// The process may exit.
    pub fn stopped(&self) -> (r: bool)
        ensures
            r == (self.phase is Stopped),
    {
        matches!(self.phase, Phase::Stopped)
    }
}

/// Out of `Running`, finishing tasks keeps the coordinator out of `Running`
/// and only counts down the in-flight tasks.
proof fn lemma_run_tasks_not_running(c: Coordinator, k: nat)
    requires
        !(c.phase is Running),
        k <= c.active,
    ensures
        !(spec_run_tasks(c, k).phase is Running),
        spec_run_tasks(c, k).active == c.active - k,
    decreases k,
{
    if k > 0 {
        lemma_run_tasks_not_running(spec_task_done(c), (k - 1) as nat);
    }
}

/// Draining runs down to a stop: once out of `Running` with tasks in flight,
/// finishing all of them stops the coordinator.
proof fn lemma_draining_runs_down(c: Coordinator)
    requires
        c.phase is Draining,
        c.active > 0,
    ensures
        spec_run_tasks(c, c.active as nat).phase is Stopped,
    decreases c.active,
{
    if c.active > 0 {
        let d = spec_task_done(c);
        if d.phase is Draining {
            lemma_draining_runs_down(d);
        } else {
            lemma_run_tasks_not_running(d, d.active as nat);
            assert(spec_run_tasks(d, d.active as nat).active == 0);
            assert(d.phase is Stopped);
        }
    }
}

/// Graceful drain: from any running state, a termination signal admits no
/// further connection at any later point, every task that was in flight at
/// the signal still gets to finish, and the coordinator stops exactly when
/// the last of them has finished.
pub proof fn lemma_graceful_drain(c: Coordinator)
    requires
        wf(c),
        c.phase is Running,
    ensures
        !(spec_signal(c).phase is Running),
        spec_signal(c).active == c.active,
        forall|k: nat|
            k <= c.active ==> !(#[trigger] spec_run_tasks(spec_signal(c), k).phase is Running),
        forall|k: nat|
            k <= c.active ==> (#[trigger] spec_accept(spec_run_tasks(spec_signal(c), k))).1
                == false,
        spec_run_tasks(spec_signal(c), c.active as nat).phase is Stopped,
{
    let d = spec_signal(c);
    assert forall|k: nat| k <= c.active implies !(#[trigger] spec_run_tasks(d, k).phase
        is Running) by {
        lemma_run_tasks_not_running(d, k);
    }
    if c.active > 0 {
        lemma_draining_runs_down(d);
    }
}

} // verus!
