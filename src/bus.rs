use vstd::prelude::*;

use crate::slot::TaskId;

verus! {

/// One step on the shared bus, as the arbiter sees it.
#[derive(Clone, Copy, Debug, PartialEq, Eq, Structural)]
pub enum BusEvent {
    /// `task` began a critical section.
    Acquire(TaskId),
    /// `task` moved one byte over the bus.
    Transfer(TaskId, u8),
    /// `task` ended its critical section.
    Release(TaskId),
}

/// Who holds the bus after `e`, when `h` held it before.
pub open spec fn next_holder(h: Option<TaskId>, e: BusEvent) -> Option<TaskId> {
    match e {
        BusEvent::Acquire(t) => Some(t),
        BusEvent::Transfer(_, _) => h,
        BusEvent::Release(_) => None,
    }
}

/// Whether `e` may happen while `h` holds the bus: a section begins only on
/// a free bus, and only the holder moves bytes or ends its section.
pub open spec fn allowed(h: Option<TaskId>, e: BusEvent) -> bool {
    match e {
        BusEvent::Acquire(_) => h is None,
        BusEvent::Transfer(t, _) => h == Some(t),
        BusEvent::Release(t) => h == Some(t),
    }
}

/// Who holds the bus after the first `n` events of `trace`.
pub open spec fn holder_at(trace: Seq<BusEvent>, n: nat) -> Option<TaskId>
    decreases n,
{
    if n == 0 || n > trace.len() {
        None
    } else {
        next_holder(holder_at(trace, (n - 1) as nat), trace[n - 1])
    }
}

/// Whether every event of `trace` was allowed when it happened.
pub open spec fn valid_trace(trace: Seq<BusEvent>) -> bool {
    forall|n: int| 0 <= n < trace.len() ==> #[trigger] allowed(holder_at(trace, n as nat), trace[n])
}

/// The events of a whole critical section of `task` moving `bytes`.
pub open spec fn section(task: TaskId, bytes: Seq<u8>) -> Seq<BusEvent> {
    seq![BusEvent::Acquire(task)] + bytes.map_values(|b: u8| BusEvent::Transfer(task, b))
        + seq![BusEvent::Release(task)]
}

/// Adding an event leaves who held the bus at each earlier point as it was.
proof fn lemma_holder_at_push(trace: Seq<BusEvent>, e: BusEvent, n: nat)
    requires
        n <= trace.len(),
    ensures
        holder_at(trace.push(e), n) == holder_at(trace, n),
    decreases n,
{
    if n > 0 {
        lemma_holder_at_push(trace, e, (n - 1) as nat);
    }
}

/// The arbiter of the one shared bus: at most one task holds it at a time,
/// and only the holder moves bytes over it.
pub struct BusArbiter {
    holder: Option<TaskId>,
    trace: Ghost<Seq<BusEvent>>,
}

impl BusArbiter {
    /// The task that holds the bus, if any.
    pub closed spec fn holder(&self) -> Option<TaskId> {
        self.holder
    }

    /// Every event that happened on the bus so far, in order.
    pub closed spec fn trace(&self) -> Seq<BusEvent> {
        self.trace@
    }

    /// The holder is the one the events say, and every event was allowed.
    pub open spec fn wf(&self) -> bool {
        &&& self.holder() == holder_at(self.trace(), self.trace().len())
        &&& valid_trace(self.trace())
    }

    /// A free bus on which nothing has happened.
    pub fn new() -> (r: BusArbiter)
        ensures
            r.wf(),
            r.holder() is None,
            r.trace() == Seq::<BusEvent>::empty(),
    {
        BusArbiter { holder: None, trace: Ghost(Seq::empty()) }
    }

    /// `task` asks for the bus. It gets it when the bus is free; otherwise
    /// nothing changes and the task must wait for the holder to release it.
    pub fn acquire(&mut self, task: TaskId) -> (granted: bool)
        requires
            old(self).wf(),
        ensures
            final(self).wf(),
            granted == (old(self).holder() is None),
            granted ==> final(self).holder() == Some(task)
                && final(self).trace() == old(self).trace().push(BusEvent::Acquire(task)),
            !granted ==> final(self).holder() == old(self).holder()
                && final(self).trace() == old(self).trace(),
    {
        if self.holder.is_none() {
            let e = BusEvent::Acquire(task);
            self.push_event(e);
            self.holder = Some(task);
            true
        } else {
            false
        }
    }

    /// Add an allowed event to the trace.
    fn push_event(&mut self, e: BusEvent)
        requires
            old(self).wf(),
            allowed(old(self).holder(), e),
        ensures
            final(self).holder() == old(self).holder(),
            final(self).trace() == old(self).trace().push(e),
            valid_trace(final(self).trace()),
            holder_at(final(self).trace(), final(self).trace().len() as nat)
                == next_holder(old(self).holder(), e),
    {
        let ghost tr = self.trace@;
        self.trace = Ghost(tr.push(e));
        proof {
            let nt = tr.push(e);
            assert forall|n: int| 0 <= n < nt.len() implies #[trigger] allowed(holder_at(nt, n as nat), nt[n]) by {
                lemma_holder_at_push(tr, e, n as nat);
                if n < tr.len() {
                    assert(allowed(holder_at(tr, n as nat), tr[n]));
                }
            }
            lemma_holder_at_push(tr, e, tr.len() as nat);
        }
    }

    /// The holder moves `byte` over the bus. A task that does not hold the
    /// bus is refused, and nothing changes.
    pub fn transfer(&mut self, task: TaskId, byte: u8) -> (done: bool)
        requires
            old(self).wf(),
        ensures
            final(self).wf(),
            final(self).holder() == old(self).holder(),
            done == (old(self).holder() == Some(task)),
            done ==> final(self).trace() == old(self).trace().push(BusEvent::Transfer(task, byte)),
            !done ==> final(self).trace() == old(self).trace(),
    {
        if self.holder == Some(task) {
            self.push_event(BusEvent::Transfer(task, byte));
            true
        } else {
            false
        }
    }

    /// The holder ends its critical section and the bus is free again. A task
    /// that does not hold the bus is refused, and nothing changes.
    pub fn release(&mut self, task: TaskId) -> (done: bool)
        requires
            old(self).wf(),
        ensures
            final(self).wf(),
            done == (old(self).holder() == Some(task)),
            done ==> final(self).holder() is None
                && final(self).trace() == old(self).trace().push(BusEvent::Release(task)),
            !done ==> final(self).holder() == old(self).holder()
                && final(self).trace() == old(self).trace(),
    {
        if self.holder == Some(task) {
            self.push_event(BusEvent::Release(task));
            self.holder = None;
            true
        } else {
            false
        }
    }

    /// A whole critical section for `task`: take the bus, move `bytes` over
    /// it in order, and free it again. When the bus is held by another task
    /// nothing happens and `false` is returned; the bus is never left held.
    pub fn transaction(&mut self, task: TaskId, bytes: &Vec<u8>) -> (done: bool)
        requires
            old(self).wf(),
        ensures
            final(self).wf(),
            done == (old(self).holder() is None),
            done ==> final(self).holder() is None && final(self).trace() == old(self).trace()
                + section(task, bytes@),
            !done ==> final(self).holder() == old(self).holder()
                && final(self).trace() == old(self).trace(),
    {
        let ghost before = self.trace@;
        if !self.acquire(task) {
            return false;
        }
        let ghost start = self.trace@;
        let mut i: usize = 0;
        while i < bytes.len()
            invariant
                self.wf(),
                self.holder() == Some(task),
                i <= bytes@.len(),
                self.trace() == start + bytes@.subrange(0, i as int).map_values(
                    |b: u8| BusEvent::Transfer(task, b),
                ),
            decreases bytes@.len() - i,
        {
            self.transfer(task, bytes[i]);
            i = i + 1;
            assert(self.trace() =~= start + bytes@.subrange(0, i as int).map_values(
                |b: u8| BusEvent::Transfer(task, b),
            ));
        }
        assert(bytes@.subrange(0, bytes@.len() as int) =~= bytes@);
        self.release(task);
        assert(self.trace() =~= before + section(task, bytes@));
        true
    }

    /// The task that holds the bus, if any.
    pub fn current_holder(&self) -> (r: Option<TaskId>)
        ensures
            r == self.holder(),
    {
        self.holder
    }
}

/// While `t` holds the bus from point `from` on and no section ends, it keeps
/// holding it, and every event in between is one of its own transfers.
proof fn lemma_held_until_release(trace: Seq<BusEvent>, t: TaskId, from: nat, to: nat)
    requires
        valid_trace(trace),
        from <= to <= trace.len(),
        holder_at(trace, from) == Some(t),
        forall|m: int| from <= m < to ==> !(#[trigger] trace[m] is Release),
    ensures
        holder_at(trace, to) == Some(t),
        forall|m: int| from <= m < to ==> (#[trigger] trace[m] is Transfer && trace[m]->Transfer_0 == t),
    decreases to - from,
{
    if from < to {
        let m = to - 1;
        lemma_held_until_release(trace, t, from, (to - 1) as nat);
        assert(allowed(holder_at(trace, m as nat), trace[m]));
        assert(!(trace[m] is Release));
    }
}

/// A critical section on the bus is one contiguous run: from the moment a
/// task takes the bus to the first release after it, every event is a
/// transfer of that same task, and the release is that task's own.
pub proof fn lemma_sections_are_contiguous(a: &BusArbiter, start: int, end: int)
    requires
        a.wf(),
        0 <= start < end < a.trace().len(),
        a.trace()[start] is Acquire,
        a.trace()[end] is Release,
        forall|m: int| start < m < end ==> !(#[trigger] a.trace()[m] is Release),
    ensures
        ({
            let t = a.trace()[start]->Acquire_0;
            &&& a.trace()[end] == BusEvent::Release(t)
            &&& forall|m: int|
                start < m < end ==> (#[trigger] a.trace()[m] is Transfer
                    && a.trace()[m]->Transfer_0 == t)
        }),
{
    let tr = a.trace();
    let t = tr[start]->Acquire_0;
    assert(holder_at(tr, (start + 1) as nat) == Some(t));
    lemma_held_until_release(tr, t, (start + 1) as nat, end as nat);
    assert(allowed(holder_at(tr, end as nat), tr[end]));
}

} // verus!
