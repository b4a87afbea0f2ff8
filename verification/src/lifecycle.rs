//! The lifecycle coordinator: counts outstanding copy tasks and says
//! when the whole engine must stop dispatching.
//!
//! The counter starts at the number of concurrent copy tasks launched
//! (two in the canonical engine: the relay and the tagging
//! multiplexer).  Each task reports its terminal event exactly once —
//! the task state machines make a second report impossible, since
//! their terminal transitions require a still-running task — and the
//! engine shuts down exactly when the counter reaches zero.

use vstd::prelude::*;

verus! {

/// The outstanding-task counter.
pub struct Lifecycle {
    pub outstanding: u8,
}

impl Lifecycle {
    /// The engine must stop dispatching: every task has finished.
    pub open spec fn shutdown(self) -> bool {
        self.outstanding == 0
    }

    /// The state after one task completion is reported.
    pub open spec fn after_completion(self) -> Lifecycle {
        Lifecycle { outstanding: (self.outstanding - 1) as u8 }
    }

    /// A coordinator awaiting `tasks` concurrent copy tasks.
    pub fn new(tasks: u8) -> (c: Lifecycle)
        ensures
            c.outstanding == tasks,
    {
        Lifecycle { outstanding: tasks }
    }

    /// Records one task's terminal event and says whether that was the
    /// last outstanding task, so the engine must now shut down.
    pub fn task_done(&mut self) -> (stop: bool)
        requires
            old(self).outstanding > 0,
        ensures
            *final(self) == old(self).after_completion(),
            stop == final(self).shutdown(),
    {
        self.outstanding = self.outstanding - 1;
        self.outstanding == 0
    }

    /// Whether the engine must stop dispatching.
    pub fn is_shutdown(&self) -> (r: bool)
        ensures
            r == self.shutdown(),
    {
        self.outstanding == 0
    }
}

/// For any coordinator awaiting exactly two tasks, the engine shuts
/// down after exactly the second completion: never after the first,
/// and the second leaves nothing further to report.
pub proof fn lemma_shutdown_exactly_after_second(c: Lifecycle)
    requires
        c.outstanding == 2,
    ensures
        !c.after_completion().shutdown(),
        c.after_completion().after_completion().shutdown(),
{
}

} // verus!
