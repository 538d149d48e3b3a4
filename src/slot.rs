use vstd::prelude::*;

verus! {

/// A task, named by a number that the scheduler hands out.
pub type TaskId = u64;

/// What a task that asks a slot for a value gets.
#[derive(Clone, Copy, Debug, PartialEq, Eq)]
pub enum WaitOutcome<T> {
    /// A value was pending: it is handed over and no longer pending.
    Ready(T),
    /// No value was pending: the task is suspended until the next signal.
    Suspended,
}

/// The contents of a slot: the value not yet read, if any, and the tasks
/// suspended on it, in the order they began to wait.
pub struct SlotView<T> {
    pub pending: Option<T>,
    pub waiters: Seq<TaskId>,
}

/// The slot after `value` was signalled: each suspended task is resumed with
/// `value`, which is then read; with no task waiting, `value` becomes the
/// pending value, in place of any value that was not read.
pub open spec fn after_signal<T>(s: SlotView<T>, value: T) -> SlotView<T> {
    SlotView {
        pending: if s.waiters.len() == 0 {
            Some(value)
        } else {
            None
        },
        waiters: seq![],
    }
}

/// The tasks that a signal of `value` resumes, each with the value it gets.
pub open spec fn resumed<T>(s: SlotView<T>, value: T) -> Seq<(TaskId, T)> {
    s.waiters.map_values(|t: TaskId| (t, value))
}

/// The slot after `task` asked for a value, and what the task got.
pub open spec fn after_wait<T>(s: SlotView<T>, task: TaskId) -> (SlotView<T>, WaitOutcome<T>) {
    match s.pending {
        Some(v) => (SlotView { pending: None, waiters: s.waiters }, WaitOutcome::Ready(v)),
        None => (
            SlotView {
                pending: None,
                waiters: if s.waiters.contains(task) {
                    s.waiters
                } else {
                    s.waiters.push(task)
                },
            },
            WaitOutcome::Suspended,
        ),
    }
}

/// A single-slot hand-off in which the latest value wins: producers signal
/// complete values, consumers wait for one. There is no queue: a value that
/// nobody read is replaced by the next one.
pub struct BroadcastSlot<T> {
    pending: Option<T>,
    waiters: Vec<TaskId>,
}

impl<T> View for BroadcastSlot<T> {
    type V = SlotView<T>;

    closed spec fn view(&self) -> SlotView<T> {
        SlotView { pending: self.pending, waiters: self.waiters@ }
    }
}

impl<T: Copy> BroadcastSlot<T> {
    /// No task waits twice, and a value is pending only while nobody waits.
    pub open spec fn wf(&self) -> bool {
        &&& self@.waiters.no_duplicates()
        &&& self@.pending is Some ==> self@.waiters.len() == 0
    }

    /// An empty slot with nobody waiting.
    pub fn new() -> (r: Self)
        ensures
            r.wf(),
            r@ == (SlotView::<T> { pending: None, waiters: seq![] }),
    {
        BroadcastSlot { pending: None, waiters: Vec::new() }
    }

    /// Publish `value`: every suspended task is resumed with it; with no task
    /// waiting it is kept, in place of any value not yet read.
    pub fn signal(&mut self, value: T) -> (r: Vec<(TaskId, T)>)
        requires
            old(self).wf(),
        ensures
            final(self).wf(),
            final(self)@ == after_signal(old(self)@, value),
            r@ == resumed(old(self)@, value),
    {
        let mut out: Vec<(TaskId, T)> = Vec::new();
        let mut i: usize = 0;
        while i < self.waiters.len()
            invariant
                i <= self.waiters@.len(),
                out@ == self.waiters@.subrange(0, i as int).map_values(|t: TaskId| (t, value)),
            decreases self.waiters@.len() - i,
        {
            out.push((self.waiters[i], value));
            i = i + 1;
            assert(self.waiters@.subrange(0, i as int).map_values(|t: TaskId| (t, value))
                =~= out@);
        }
        assert(self.waiters@.subrange(0, self.waiters@.len() as int) =~= self.waiters@);
        if self.waiters.len() == 0 {
            self.pending = Some(value);
        } else {
            self.pending = None;
        }
        self.waiters = Vec::new();
        out
    }

    /// `task` asks for a value: it gets the pending one, which is then read,
    /// or it is suspended until the next signal.
    pub fn wait(&mut self, task: TaskId) -> (r: WaitOutcome<T>)
        requires
            old(self).wf(),
        ensures
            final(self).wf(),
            (final(self)@, r) == after_wait(old(self)@, task),
    {
        match self.pending {
            Some(v) => {
                self.pending = None;
                WaitOutcome::Ready(v)
            },
            None => {
                let mut found = false;
                let mut i: usize = 0;
                while i < self.waiters.len()
                    invariant
                        i <= self.waiters@.len(),
                        found <==> exists|j: int| 0 <= j < i && self.waiters@[j] == task,
                    decreases self.waiters@.len() - i,
                {
                    if self.waiters[i] == task {
                        found = true;
                    }
                    i = i + 1;
                }
                if !found {
                    self.waiters.push(task);
                }
                WaitOutcome::Suspended
            },
        }
    }

    /// Whether a value is pending.
    pub fn signaled(&self) -> (r: bool)
        ensures
            r == self@.pending is Some,
    {
        self.pending.is_some()
    }

    /// The number of tasks suspended on the slot.
    pub fn waiting(&self) -> (r: usize)
        ensures
            r == self@.waiters.len(),
    {
        self.waiters.len()
    }
}

/// The slot after each of `values` was signalled, in order.
pub open spec fn after_signals<T>(s: SlotView<T>, values: Seq<T>) -> SlotView<T>
    decreases values.len(),
{
    if values.len() == 0 {
        s
    } else {
        after_signals(after_signal(s, values[0]), values.drop_first())
    }
}

/// Two signals in a row, then a wait: the waiting task gets the second
/// value, whatever the slot held before.
pub proof fn lemma_second_signal_wins<T>(s: SlotView<T>, a: T, b: T, task: TaskId)
    ensures
        after_wait(after_signal(after_signal(s, a), b), task).1 == WaitOutcome::Ready(b),
{
}

/// Whatever run of values is signalled while no task waits, the next wait
/// gets the last of them, and a second wait suspends: the earlier values are
/// never seen.
pub proof fn lemma_latest_signal_wins<T>(s: SlotView<T>, values: Seq<T>, task: TaskId)
    requires
        s.waiters.len() == 0,
        values.len() > 0,
    ensures
        after_wait(after_signals(s, values), task).1 == WaitOutcome::Ready(values.last()),
        after_wait(after_wait(after_signals(s, values), task).0, task).1
            == WaitOutcome::<T>::Suspended,
    decreases values.len(),
{
    let rest = values.drop_first();
    if values.len() > 1 {
        lemma_latest_signal_wins(after_signal(s, values[0]), rest, task);
        assert(rest.last() == values.last());
    } else {
        assert(after_signals(after_signal(s, values[0]), rest) == after_signal(s, values[0]));
    }
}

/// A task that waits on a slot with no pending value is among its waiters.
proof fn lemma_wait_registers<T>(s: SlotView<T>, task: TaskId)
    requires
        s.pending is None,
    ensures
        after_wait(s, task).0.waiters.contains(task),
{
    if !s.waiters.contains(task) {
        let w = s.waiters.push(task);
        assert(w[w.len() - 1] == task);
    }
}

/// A wait on a slot with no pending value, such as a new one, suspends the
/// task, and the first signal that follows resumes it with that value.
pub proof fn lemma_wait_suspends_until_signal<T>(s: SlotView<T>, task: TaskId, value: T)
    requires
        s.pending is None,
    ensures
        after_wait(s, task).1 == WaitOutcome::<T>::Suspended,
        resumed(after_wait(s, task).0, value).contains((task, value)),
{
    let w = after_wait(s, task).0.waiters;
    lemma_wait_registers(s, task);
    let j = choose|j: int| 0 <= j < w.len() && w[j] == task;
    assert(resumed(after_wait(s, task).0, value)[j] == (task, value));
}

/// Two tasks that wait on a slot with no pending value are both suspended,
/// and one signal resumes both with the same value.
pub proof fn lemma_signal_resumes_all_waiters<T>(s: SlotView<T>, t1: TaskId, t2: TaskId, value: T)
    requires
        s.pending is None,
    ensures
        ({
            let (s1, o1) = after_wait(s, t1);
            let (s2, o2) = after_wait(s1, t2);
            &&& o1 == WaitOutcome::<T>::Suspended
            &&& o2 == WaitOutcome::<T>::Suspended
            &&& resumed(s2, value).contains((t1, value))
            &&& resumed(s2, value).contains((t2, value))
        }),
{
    let s1 = after_wait(s, t1).0;
    let s2 = after_wait(s1, t2).0;
    lemma_wait_registers(s, t1);
    let j1 = choose|j: int| 0 <= j < s1.waiters.len() && s1.waiters[j] == t1;
    assert(s2.waiters[j1] == t1);
    assert(resumed(s2, value)[j1] == (t1, value));
    lemma_wait_registers(s1, t2);
    let j2 = choose|j: int| 0 <= j < s2.waiters.len() && s2.waiters[j] == t2;
    assert(resumed(s2, value)[j2] == (t2, value));
}

} // verus!
