//! A processor: a local task queue with a one-task slot in front of it.
use vstd::prelude::*;
use vstd::multiset::Multiset;
use crate::steal::{merge, rotated_index, Steal};
use crate::deque::{injector_steal_batch_and_pop, stealer_steal_batch_and_pop};

verus! {

/// The processor count for a machine on which `detected` CPUs were found: at least one.
pub fn processor_count(detected: usize) -> (r: usize)
    ensures
        r == if detected == 0 { 1 } else { detected },
{
    if detected == 0 {
        1
    } else {
        detected
    }
}

/// Relies on `num_cpus::get`: the number of CPUs available to the process.
/// It depends on the machine, so nothing is stated of it.
pub assume_specification[ num_cpus::get ]() -> usize;

/// The processor count of this machine: one per available CPU, at least one.
pub fn cpu_count() -> (r: usize)
    ensures
        r >= 1,
{
    processor_count(num_cpus::get())
}

/// `n` processors, each with an empty queue and an empty slot.
pub fn processors<T>(n: usize) -> (r: Vec<Processor<T>>)
    ensures
        r.len() == n,
        forall|i: int| 0 <= i < n ==> (#[trigger] r[i]).next() is None,
{
    let mut r: Vec<Processor<T>> = Vec::new();
    while r.len() < n
        invariant
            r.len() <= n,
            forall|i: int| 0 <= i < r.len() ==> (#[trigger] r[i]).next() is None,
        decreases n - r.len(),
    {
        r.push(Processor::new());
    }
    r
}

/// A stealer for each of `ps`, in the same order.
pub fn stealers_of<T>(ps: &Vec<Processor<T>>) -> (r: Vec<crossbeam_deque::Stealer<T>>)
    ensures
        r.len() == ps.len(),
{
    let mut r: Vec<crossbeam_deque::Stealer<T>> = Vec::new();
    let mut i: usize = 0;
    while i < ps.len()
        invariant
            i <= ps.len(),
            r.len() == i,
        decreases ps.len() - i,
    {
        r.push(ps[i].stealer());
        i = i + 1;
    }
    r
}

/// A logical scheduling unit. Its owner pushes to and pops from the local
/// queue; other workers steal from that queue through its stealer. The slot
/// holds the task scheduled most recently, which runs next.
#[verifier::reject_recursive_types(T)]
pub struct Processor<T> {
    worker: crossbeam_deque::Worker<T>,
    slot: Option<T>,
    pushed: Ghost<Seq<T>>,
}

impl<T> Processor<T> {
    /// The task waiting in the slot.
    pub closed spec fn next(&self) -> Option<T> {
        self.slot
    }

    /// Every task the owner has pushed one by one to the back of the local
    /// queue, in order. Only the owner pushes, so this record holds with
    /// stealers about; tasks leave the queue from the front, by pops and
    /// steals. Batches that the owner's own steals move in are not recorded.
    pub closed spec fn pushed(&self) -> Seq<T> {
        self.pushed@
    }

    /// The slot with the record of pushes, as a `ProcModel`.
    pub open spec fn model(&self) -> ProcModel<T> {
        ProcModel { slot: self.next(), queue: self.pushed() }
    }

    /// Creates a processor with an empty queue and an empty slot: nothing has
    /// been pushed to its queue yet.
    pub fn new() -> (r: Processor<T>)
        ensures
            r.next() is None,
            r.pushed().len() == 0,
    {
        Processor { worker: crossbeam_deque::Worker::new_fifo(), slot: None, pushed: Ghost(Seq::empty()) }
    }

    /// Pushes `task` to the back of the local queue.
    fn push_local(&mut self, task: T)
        ensures
            final(self).next() == old(self).next(),
            final(self).pushed() == old(self).pushed().push(task),
    {
        self.pushed = Ghost(self.pushed@.push(task));
        self.worker.push(task);
    }

    /// A handle through which other workers steal from the local queue.
    pub fn stealer(&self) -> crossbeam_deque::Stealer<T> {
        self.worker.stealer()
    }

    /// Puts `task` in the slot. A task that was there moves to the back of the
    /// local queue; then the result is `true`, as a waiting thread may now
    /// steal it and should be notified.
    pub fn schedule(&mut self, task: T) -> (notify: bool)
        ensures
            final(self).next() == Some(task),
            notify == (old(self).next() is Some),
            final(self).model() == old(self).model().schedule(task),
            final(self).pushed() == match old(self).next() {
                Some(e) => old(self).pushed().push(e),
                None => old(self).pushed(),
            },
    {
        let evicted = self.slot.take();
        self.slot = Some(task);
        match evicted {
            None => false,
            Some(evicted) => {
                self.push_local(evicted);
                true
            },
        }
    }

    /// Moves the task in the slot, if any, to the back of the local queue, so
    /// that two tasks that keep scheduling each other cannot starve the rest.
    /// The result is `true` when a task moved and a notification is owed.
    pub fn flush_slot(&mut self) -> (notify: bool)
        ensures
            final(self).next() is None,
            notify == (old(self).next() is Some),
            final(self).model() == old(self).model().flush(),
            final(self).pushed() == match old(self).next() {
                Some(e) => old(self).pushed().push(e),
                None => old(self).pushed(),
            },
    {
        match self.slot.take() {
            None => false,
            Some(task) => {
                self.push_local(task);
                true
            },
        }
    }

    /// Takes the task in the slot; with an empty slot, the task at the front of
    /// the local queue, if any.
    pub fn pop_task(&mut self) -> (r: Option<T>)
        ensures
            final(self).next() is None,
            final(self).pushed() == old(self).pushed(),
            old(self).next() is Some ==> r == old(self).next(),
    {
        match self.slot.take() {
            Some(task) => Some(task),
            None => self.worker.pop(),
        }
    }

    /// Steals a batch from the global queue into the local queue and returns one task.
    pub fn steal_from_global(&mut self, injector: &crossbeam_deque::Injector<T>) -> (r: Steal<T>)
        ensures
            final(self).next() == old(self).next(),
            final(self).pushed() == old(self).pushed(),
    {
        injector_steal_batch_and_pop(injector, &self.worker)
    }

    /// Tries to steal a batch from each of `stealers` in turn, starting at index
    /// `start` and wrapping around, and stops at the first success. Without a
    /// success the result is `Retry` if any attempt asked for it, else `Empty`:
    /// each outcome is folded in with `merge`.
    pub fn steal_from_others(
        &mut self,
        stealers: &Vec<crossbeam_deque::Stealer<T>>,
        start: usize,
    ) -> (r: Steal<T>)
        requires
            stealers.len() == 0 || start < stealers.len(),
        ensures
            final(self).next() == old(self).next(),
            final(self).pushed() == old(self).pushed(),
            stealers.len() == 0 ==> r is Empty,
    {
        let len = stealers.len();
        let mut acc: Steal<T> = Steal::Empty;
        let mut k: usize = 0;
        while k < len
            invariant
                k <= len,
                len == stealers.len(),
                len == 0 || start < len,
                !(acc is Success),
                len == 0 ==> acc is Empty,
                self.next() == old(self).next(),
                self.pushed() == old(self).pushed(),
            decreases len - k,
        {
            let i = rotated_index(start, k, len);
            let outcome = stealer_steal_batch_and_pop(&stealers[i], &self.worker);
            acc = merge(acc.is_retry(), outcome);
            proof {
                reveal_with_fuel(crate::steal::collapse, 3);
            }
            if acc.is_success() {
                return acc;
            }
            k = k + 1;
        }
        acc
    }
}

/// Where `schedule_on` put a task.
pub enum Placement<T> {
    /// In the slot of the held processor; `notify` says whether a task was
    /// moved from the slot to the local queue, which owes a notification.
    Local { notify: bool },
    /// No processor is held: the task is handed back, to go to the global
    /// queue, after which a notification is owed.
    Global(T),
}

/// Schedules `task` on the processor held in `holder`; when the processor
/// has been taken away, hands the task back for the global queue.
pub fn schedule_on<T>(holder: &mut Option<Processor<T>>, task: T) -> (r: Placement<T>)
    ensures
        match *old(holder) {
            None => (*final(holder)) is None && r == Placement::Global(task),
            Some(p) => {
                &&& (*final(holder)) is Some
                &&& (*final(holder)).unwrap().next() == Some(task)
                &&& r == Placement::<T>::Local { notify: p.next() is Some }
                &&& (*final(holder)).unwrap().pushed() == match p.next() {
                    Some(e) => p.pushed().push(e),
                    None => p.pushed(),
                }
            },
        },
{
    match holder {
        None => Placement::Global(task),
        Some(p) => Placement::Local { notify: p.schedule(task) },
    }
}

/// The coordinator's check of one machine: a machine that made no progress
/// since the last tick is stuck, and its processor, if it still holds one, is
/// taken for a new machine. A machine that made progress keeps its processor.
pub fn take_from_stuck<T>(made_progress: bool, holder: &mut Option<Processor<T>>) -> (r: Option<Processor<T>>)
    ensures
        made_progress ==> r is None && *final(holder) == *old(holder),
        !made_progress ==> r == *old(holder) && (*final(holder)) is None,
{
    if made_progress {
        None
    } else {
        holder.take()
    }
}

/// A model of a processor as values, for stating its laws: the slot, and
/// the local queue from front to back as it stands when no other worker
/// steals from it. `Processor::model` ties a processor to it: its slot, and
/// its record of pushes in place of the queue; `Processor::schedule` and
/// `Processor::flush_slot` change that model as `schedule` and `flush` say.
pub struct ProcModel<T> {
    pub slot: Option<T>,
    pub queue: Seq<T>,
}

/// The tasks in an optional slot.
pub open spec fn slot_tasks<T>(slot: Option<T>) -> Multiset<T> {
    match slot {
        Some(t) => Multiset::singleton(t),
        None => Multiset::empty(),
    }
}

impl<T> ProcModel<T> {
    /// A processor with nothing in it.
    pub open spec fn empty() -> ProcModel<T> {
        ProcModel { slot: None, queue: Seq::empty() }
    }

    /// All tasks the processor holds.
    pub open spec fn tasks(self) -> Multiset<T> {
        self.queue.to_multiset().add(slot_tasks(self.slot))
    }

    /// Scheduling, as `Processor::schedule` does it: the task takes the slot, and the task it
    /// evicts goes to the back of the queue.
    pub open spec fn schedule(self, t: T) -> ProcModel<T> {
        ProcModel {
            slot: Some(t),
            queue: match self.slot {
                Some(e) => self.queue.push(e),
                None => self.queue,
            },
        }
    }

    /// Flushing the slot, as `Processor::flush_slot` does it.
    pub open spec fn flush(self) -> ProcModel<T> {
        ProcModel {
            slot: None,
            queue: match self.slot {
                Some(e) => self.queue.push(e),
                None => self.queue,
            },
        }
    }

    /// The task `Processor::pop_task` takes when nobody steals: the slot's,
    /// else the front of the queue.
    pub open spec fn popped(self) -> Option<T> {
        match self.slot {
            Some(t) => Some(t),
            None => if self.queue.len() > 0 {
                Some(self.queue[0])
            } else {
                None
            },
        }
    }

    /// The processor after `Processor::pop_task` when nobody steals.
    pub open spec fn pop(self) -> ProcModel<T> {
        match self.slot {
            Some(_) => ProcModel { slot: None, queue: self.queue },
            None => ProcModel {
                slot: None,
                queue: if self.queue.len() > 0 {
                    self.queue.drop_first()
                } else {
                    self.queue
                },
            },
        }
    }

    /// The processor after `ts` are scheduled in order.
    pub open spec fn schedule_all(self, ts: Seq<T>) -> ProcModel<T>
        decreases ts.len(),
    {
        if ts.len() == 0 {
            self
        } else {
            self.schedule(ts[0]).schedule_all(ts.drop_first())
        }
    }
}

/// No task is lost or duplicated on a processor: scheduling adds exactly the
/// task, flushing the slot keeps the same tasks, and popping removes exactly
/// the task handed out.
pub proof fn processor_keeps_tasks<T>(p: ProcModel<T>, t: T)
    ensures
        p.schedule(t).tasks() =~= p.tasks().insert(t),
        p.flush().tasks() =~= p.tasks(),
        p.pop().tasks().add(slot_tasks(p.popped())) =~= p.tasks(),
{
    p.queue.to_multiset_ensures();
    if p.slot is None && p.queue.len() > 0 {
        assert(p.queue.remove(0) =~= p.queue.drop_first());
        assert(p.queue.contains(p.queue[0]));
    }
}

/// Tasks scheduled on a processor run in the order they were scheduled, but
/// for the last one, which waits in the slot and runs first: afterwards the
/// queue holds what it held, the task evicted from the slot, and all the new
/// tasks but the last, in order.
pub proof fn processor_fifo_with_slot<T>(p: ProcModel<T>, ts: Seq<T>)
    requires
        ts.len() >= 1,
    ensures
        p.schedule_all(ts).slot == Some(ts.last()),
        p.schedule_all(ts).queue =~= p.flush().queue + ts.drop_last(),
        p.schedule_all(ts).flush().queue =~= p.flush().queue + ts,
    decreases ts.len(),
{
    if ts.len() == 1 {
        assert(ts.drop_first().len() == 0);
        assert(ts.drop_last() =~= Seq::<T>::empty());
    } else {
        let q = p.schedule(ts[0]);
        processor_fifo_with_slot(q, ts.drop_first());
        assert(ts.drop_first().drop_last() =~= ts.drop_last().drop_first());
        assert(ts.drop_last() =~= seq![ts[0]] + ts.drop_last().drop_first());
        assert(ts =~= seq![ts[0]] + ts.drop_first());
    }
}

} // verus!
