use vstd::prelude::*;

use crate::slot::{after_signal, resumed, BroadcastSlot, TaskId};

verus! {

/// Where a periodic task stands in its life.
#[derive(Clone, Copy, Debug, PartialEq, Eq, Structural)]
pub enum Phase {
    /// Created, not started.
    Idle,
    /// Bringing its device up, within a retry budget.
    Initializing,
    /// Working through its period, for as long as the device runs.
    Running,
    /// Its device failed to start: the task has ended, and the other tasks
    /// carry on without it.
    Stopped,
}

/// The phase after bringing the device up ended `initialized` or not.
pub open spec fn after_init(initialized: bool) -> Phase {
    if initialized {
        Phase::Running
    } else {
        Phase::Stopped
    }
}

/// The life of one periodic task.
#[derive(Clone, Copy, Debug, PartialEq, Eq, Structural)]
pub struct TaskLife {
    pub id: TaskId,
    pub phase: Phase,
}

impl TaskLife {
    /// A task that has not started yet.
    pub fn new(id: TaskId) -> (r: TaskLife)
        ensures
            r == (TaskLife { id, phase: Phase::Idle }),
    {
        TaskLife { id, phase: Phase::Idle }
    }

    /// Start the task: it begins bringing its device up.
    pub fn start(&mut self)
        requires
            old(self).phase == Phase::Idle,
        ensures
            *final(self) == (TaskLife { phase: Phase::Initializing, ..*old(self) }),
    {
        self.phase = Phase::Initializing;
    }

    /// Bringing the device up ended with `outcome`, after its retry budget:
    /// on success the task runs; on failure it stops for good and the error
    /// is handed back to be reported.
    pub fn init_finished<E>(&mut self, outcome: Result<(), E>) -> (r: Option<E>)
        requires
            old(self).phase == Phase::Initializing,
        ensures
            *final(self) == (TaskLife { phase: after_init(outcome is Ok), ..*old(self) }),
            match outcome {
                Ok(()) => r is None,
                Err(e) => r == Some(e),
            },
    {
        match outcome {
            Ok(()) => {
                self.phase = Phase::Running;
                None
            },
            Err(e) => {
                self.phase = Phase::Stopped;
                Some(e)
            },
        }
    }

    /// Whether the task still does periodic work.
    pub fn is_running(&self) -> (r: bool)
        ensures
            r == (self.phase == Phase::Running),
    {
        self.phase == Phase::Running
    }
}

/// Publish one reading of a sensor: the reading itself, or `fallback` when
/// reading failed, is signalled on `slot`. The error, if any, is handed back
/// to be reported; the tasks that the signal resumes are returned with it.
pub fn publish_reading<T: Copy, E>(
    slot: &mut BroadcastSlot<T>,
    reading: Result<T, E>,
    fallback: T,
) -> (r: (Vec<(TaskId, T)>, Option<E>))
    requires
        old(slot).wf(),
    ensures
        final(slot).wf(),
        ({
            let value = match reading {
                Ok(v) => v,
                Err(_) => fallback,
            };
            &&& final(slot)@ == after_signal(old(slot)@, value)
            &&& r.0@ == resumed(old(slot)@, value)
        }),
        match reading {
            Ok(_) => r.1 is None,
            Err(e) => r.1 == Some(e),
        },
{
    match reading {
        Ok(v) => (slot.signal(v), None),
        Err(e) => (slot.signal(fallback), Some(e)),
    }
}

} // verus!
