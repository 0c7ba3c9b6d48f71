//! The bounded-concurrency accept loop as a state machine.
//!
//! One server run walks `Listening -> Accepting -> Draining -> Terminated`.
//! The supervisor solicits exactly `capacity` connections, spawns one task
//! per successful accept, tolerates failed accepts, and then joins every
//! retained task handle, in creation order, before the run may end. The
//! caller owns the listener, the tasks and the joins; this type owns the
//! decisions: it counts attempts, spawns and joins, and says which phase
//! the run is in.

use vstd::prelude::*;

verus! {

/// The phase of one server run.
#[derive(Clone, Copy, Debug, PartialEq, Eq, Structural)]
pub enum Phase {
    /// The listening endpoint is not bound yet.
    Listening,
    /// Soliciting connections; fewer than `capacity` attempts so far.
    Accepting,
    /// All attempts made; spawned tasks are still being joined.
    Draining,
    /// All attempts made and every spawned task joined; the run may end.
    Terminated,
}

/// The accept-loop state machine for one server run.
pub struct Supervisor {
    /// How many accept attempts this run makes in all.
    pub capacity: usize,
    /// Accept attempts made so far, successful or not.
    pub attempts: usize,
    /// Tasks spawned so far: one per successful accept.
    pub spawned: usize,
    /// Spawned tasks joined so far, in creation order.
    pub joined: usize,
    /// The phase the run is in.
    pub phase: Phase,
}

impl Supervisor {
    /// Invariant of every reachable supervisor state: counters never pass
    /// their bounds, and the phase says exactly where the counters stand.
    pub open spec fn wf(self) -> bool {
        &&& self.spawned <= self.attempts <= self.capacity
        &&& self.joined <= self.spawned
        &&& (match self.phase {
            Phase::Listening => self.attempts == 0 && self.joined == 0,
            Phase::Accepting => self.attempts < self.capacity && self.joined == 0,
            Phase::Draining => self.attempts == self.capacity && self.joined < self.spawned,
            Phase::Terminated => self.attempts == self.capacity && self.joined == self.spawned,
        })
    }

    /// A fresh run that will make exactly `capacity` accept attempts.
    pub fn new(capacity: usize) -> (s: Supervisor)
        ensures
            s.wf(),
            s.capacity == capacity,
            s.attempts == 0,
            s.spawned == 0,
            s.joined == 0,
            s.phase == Phase::Listening,
    {
        Supervisor { capacity, attempts: 0, spawned: 0, joined: 0, phase: Phase::Listening }
    }

    /// The listening endpoint is bound; begin soliciting connections.
    /// With no capacity there is nothing to solicit or join, and the run
    /// is over at once.
    pub fn start_accepting(&mut self)
        requires
            old(self).wf(),
            old(self).phase == Phase::Listening,
        ensures
            final(self).wf(),
            final(self).capacity == old(self).capacity,
            final(self).attempts == 0,
            final(self).spawned == 0,
            final(self).joined == 0,
            final(self).phase == (if old(self).capacity == 0 {
                Phase::Terminated
            } else {
                Phase::Accepting
            }),
    {
        if self.capacity == 0 {
            self.phase = Phase::Terminated;
        } else {
            self.phase = Phase::Accepting;
        }
    }

    /// One accept attempt finished: `accepted` says whether it produced a
    /// connection, whose task is then spawned and retained. A failed
    /// attempt is tolerated and counts against the capacity. After the
    /// last attempt the run drains its tasks — or is over at once when no
    /// attempt succeeded.
    pub fn on_accept(&mut self, accepted: bool)
        requires
            old(self).wf(),
            old(self).phase == Phase::Accepting,
        ensures
            final(self).wf(),
            final(self).capacity == old(self).capacity,
            final(self).attempts == old(self).attempts + 1,
            final(self).spawned == old(self).spawned + (if accepted {
                1int
            } else {
                0int
            }),
            final(self).joined == 0,
            final(self).phase == (if old(self).attempts + 1 < old(self).capacity {
                Phase::Accepting
            } else if old(self).spawned + (if accepted {
                1int
            } else {
                0int
            }) > 0 {
                Phase::Draining
            } else {
                Phase::Terminated
            }),
    {
        self.attempts = self.attempts + 1;
        if accepted {
            self.spawned = self.spawned + 1;
        }
        if self.attempts == self.capacity {
            if self.spawned > 0 {
                self.phase = Phase::Draining;
            } else {
                self.phase = Phase::Terminated;
            }
        }
    }

    /// The next retained task handle, in creation order, has been joined.
    /// When it was the last one, the run is over: every spawned task has
    /// completed or failed, and none is left hanging.
    pub fn on_join(&mut self)
        requires
            old(self).wf(),
            old(self).phase == Phase::Draining,
        ensures
            final(self).wf(),
            final(self).capacity == old(self).capacity,
            final(self).attempts == old(self).attempts,
            final(self).spawned == old(self).spawned,
            final(self).joined == old(self).joined + 1,
            final(self).phase == (if old(self).joined + 1 == old(self).spawned {
                Phase::Terminated
            } else {
                Phase::Draining
            }),
    {
        self.joined = self.joined + 1;
        if self.joined == self.spawned {
            self.phase = Phase::Terminated;
        }
    }

    /// Law (shutdown completeness): a terminated run made every one of its
    /// accept attempts and joined exactly the tasks it spawned — no
    /// spawned task is left unjoined when the process may exit.
    pub proof fn lemma_terminated_is_complete(self)
        requires
            self.wf(),
            self.phase == Phase::Terminated,
        ensures
            self.attempts == self.capacity,
            self.joined == self.spawned,
    {
    }
}

} // verus!
