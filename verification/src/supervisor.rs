//! Bookkeeping of spawned applications: one exit event per successful
//! spawn.
//!
//! A run request that spawns successfully is acknowledged at once, and
//! the process is awaited off the critical path; when it terminates,
//! exactly one exit event is posted into the merged stream. A failed
//! spawn is acknowledged negatively and never produces an exit event.
//! The counters here are the dispatcher-side ledger of that discipline:
//! the runtime notes each spawn and each posted exit, and the invariant
//! bounds the exits by the successful spawns.

use vstd::prelude::*;

verus! {

/// The supervision ledger: how many applications were successfully
/// spawned so far, and how many exit events were posted for them.
pub struct AppSupervisor {
    pub spawned: u64,
    pub exited: u64,
}

impl AppSupervisor {
    /// Exit events never outnumber successful spawns.
    pub open spec fn wf(self) -> bool {
        self.exited <= self.spawned
    }

    /// How many spawned applications are still running: each will post
    /// exactly one exit event.
    pub open spec fn in_flight(self) -> int {
        self.spawned - self.exited
    }

    /// A fresh ledger: nothing spawned, nothing exited.
    pub fn new() -> (s: AppSupervisor)
        ensures
            s.wf(),
            s.spawned == 0,
            s.exited == 0,
    {
        AppSupervisor { spawned: 0, exited: 0 }
    }

    /// Note the outcome of one spawn: a successful spawn adds one
    /// application whose exit is owed; a failed spawn owes nothing.
    pub fn note_spawn(&mut self, ok: bool)
        requires
            old(self).wf(),
            old(self).spawned < u64::MAX,
        ensures
            final(self).wf(),
            final(self).exited == old(self).exited,
            final(self).spawned == old(self).spawned + if ok { 1int } else { 0int },
            final(self).in_flight() == old(self).in_flight() + if ok { 1int } else { 0int },
    {
        if ok {
            self.spawned = self.spawned + 1;
        }
    }

    /// Note one posted exit event. Only an application still in flight
    /// can exit, and it does so exactly once: the event consumes one
    /// owed exit.
    pub fn note_exit(&mut self)
        requires
            old(self).wf(),
            old(self).in_flight() > 0,
        ensures
            final(self).wf(),
            final(self).spawned == old(self).spawned,
            final(self).exited == old(self).exited + 1,
            final(self).in_flight() == old(self).in_flight() - 1,
    {
        self.exited = self.exited + 1;
    }
}

} // verus!
