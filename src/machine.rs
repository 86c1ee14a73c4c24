//! The decisions of a worker thread's run loop.
use vstd::prelude::*;
use crate::processor::Processor;
use crate::steal::{merge, Steal};

verus! {

/// Number of failed searches after which the worker yields its thread.
pub const YIELDS: u32 = 3;

/// Number of failed searches, after the yields, on which the worker briefly
/// sleeps without its processor.
pub const SLEEPS: u32 = 10;

/// Number of tasks run in a row before the worker looks at the global queue
/// and flushes its slot.
pub const RUNS: u32 = 64;

/// What a worker does after a search that found no task.
#[derive(PartialEq, Eq, Structural, Clone, Copy, Debug)]
pub enum Idle {
    /// Its processor was taken away: leave the run loop.
    Exit,
    /// Yield the thread and search again.
    Yield,
    /// Let go of the processor for a short sleep, then search again.
    Nap,
    /// Try to become the worker that blocks on the reactor.
    PollDuty,
}

/// The action owed after `fails` searches in a row found nothing.
pub open spec fn idle_action(fails: int, stolen: bool) -> Idle {
    if stolen {
        Idle::Exit
    } else if fails <= YIELDS {
        Idle::Yield
    } else if fails <= YIELDS + SLEEPS {
        Idle::Nap
    } else {
        Idle::PollDuty
    }
}

/// A worker that keeps finding nothing stops spinning: from its
/// `YIELDS + SLEEPS + 1`-th failure in a row on, it either leaves or turns to
/// reactor-poll duty, and before that it only yields or naps.
pub proof fn idle_worker_stops_spinning(fails: int, stolen: bool)
    requires
        fails >= 1,
    ensures
        fails > YIELDS + SLEEPS ==> idle_action(fails, stolen) == Idle::PollDuty || idle_action(
            fails,
            stolen,
        ) == Idle::Exit,
        !stolen && fails <= YIELDS + SLEEPS ==> (idle_action(fails, stolen) == Idle::Yield
            || idle_action(fails, stolen) == Idle::Nap),
        stolen ==> idle_action(fails, stolen) == Idle::Exit,
{
}

/// The counters of a worker's run loop.
#[derive(PartialEq, Eq, Structural, Clone, Copy, Debug)]
pub struct Counters {
    /// Searches in a row that found a task.
    pub runs: u32,
    /// Searches in a row that found none.
    pub fails: u32,
}

impl Counters {
    /// Both counters at zero.
    pub fn new() -> (r: Counters)
        ensures
            r.runs == 0 && r.fails == 0,
    {
        Counters { runs: 0, fails: 0 }
    }

    /// Whether the periodic fairness pass is due: after `RUNS` tasks in a row.
    /// When it is, the run counter starts over.
    pub fn fairness_due(&mut self) -> (due: bool)
        ensures
            due == (old(self).runs >= RUNS),
            final(self).fails == old(self).fails,
            final(self).runs == if due { 0 } else { old(self).runs },
    {
        if self.runs >= RUNS {
            self.runs = 0;
            true
        } else {
            false
        }
    }

    /// Records a search that found a task.
    pub fn found(&mut self)
        ensures
            final(self).fails == 0,
            final(self).runs == if old(self).runs < u32::MAX { old(self).runs + 1 } else { old(self).runs as int },
    {
        self.runs = self.runs.saturating_add(1);
        self.fails = 0;
    }

    /// Records a search that found no task and says what to do next: leave
    /// when the processor was taken away, else yield for the first `YIELDS`
    /// failures, nap for the next `SLEEPS`, and then try for poll duty.
    pub fn not_found(&mut self, stolen: bool) -> (r: Idle)
        ensures
            final(self).runs == old(self).runs,
            final(self).fails == if old(self).fails < u32::MAX { old(self).fails + 1 } else { old(self).fails as int },
            r == idle_action(final(self).fails as int, stolen),
    {
        self.fails = self.fails.saturating_add(1);
        if stolen {
            Idle::Exit
        } else if self.fails <= YIELDS {
            Idle::Yield
        } else if self.fails <= YIELDS + SLEEPS {
            Idle::Nap
        } else {
            Idle::PollDuty
        }
    }

    /// Starts both counters over, after a turn of poll duty.
    pub fn reset(&mut self)
        ensures
            final(self).runs == 0 && final(self).fails == 0,
    {
        self.runs = 0;
        self.fails = 0;
    }
}

/// The first half of a worker's search, on the processor it holds: the slot
/// and the local queue, then a batch stolen from the global queue. A worker
/// without a processor finds nothing here.
pub fn find_local<T>(
    holder: &mut Option<Processor<T>>,
    injector: &crossbeam_deque::Injector<T>,
) -> (r: Steal<T>)
    ensures
        (*final(holder)) is Some == (*old(holder)) is Some,
        (*old(holder)) is None ==> r is Empty,
        (*old(holder)) is Some && (*old(holder)).unwrap().next() is Some
            ==> r == Steal::Success((*old(holder)).unwrap().next().unwrap()),
        (*final(holder)) is Some ==> (*final(holder)).unwrap().next() is None,
{
    match holder {
        None => Steal::Empty,
        Some(p) => match p.pop_task() {
            Some(task) => Steal::Success(task),
            None => p.steal_from_global(injector),
        },
    }
}

/// The second half of a worker's search, after a non-blocking reactor poll:
/// when the poll woke tasks, the slot and the local queue once more, then
/// batches stolen from the other processors, starting at `start`. The outcome
/// is combined with `retried`, which says whether the first half asked for a
/// retry.
pub fn find_remote<T>(
    holder: &mut Option<Processor<T>>,
    woke: bool,
    stealers: &Vec<crossbeam_deque::Stealer<T>>,
    start: usize,
    retried: bool,
) -> (r: Steal<T>)
    requires
        stealers.len() == 0 || start < stealers.len(),
    ensures
        (*final(holder)) is Some == (*old(holder)) is Some,
        (*old(holder)) is None ==> (if retried { r is Retry } else { r is Empty }),
        (*old(holder)) is Some && woke && (*old(holder)).unwrap().next() is Some
            ==> r == Steal::Success((*old(holder)).unwrap().next().unwrap()),
        (*old(holder)) is Some && !woke
            ==> (*final(holder)).unwrap().next() == (*old(holder)).unwrap().next(),
        r is Empty ==> !retried,
{
    match holder {
        None => {
            proof {
                reveal_with_fuel(crate::steal::collapse, 3);
            }
            merge(retried, Steal::Empty)
        },
        Some(p) => {
            if woke {
                if let Some(task) = p.pop_task() {
                    return Steal::Success(task);
                }
            }
            let s = p.steal_from_others(stealers, start);
            merge(retried, s)
        },
    }
}

} // verus!
