//! The lock-free queues of `crossbeam_deque` that the scheduler stores tasks in.
//!
//! Other threads steal from these queues at any moment, so nothing is stated
//! here of what a push leaves in a queue or of what a pop or a steal returns.
use vstd::prelude::*;
use crate::steal::Steal;

verus! {

/// A processor's local queue; only its owner pushes and pops.
#[verifier::external_type_specification]
#[verifier::external_body]
#[verifier::reject_recursive_types(T)]
pub struct ExWorker<T>(crossbeam_deque::Worker<T>);

/// The read side of a local queue, held by other workers to steal from it.
#[verifier::external_type_specification]
#[verifier::external_body]
#[verifier::reject_recursive_types(T)]
pub struct ExStealer<T>(crossbeam_deque::Stealer<T>);

/// The global queue that any thread pushes into and any processor steals from.
#[verifier::external_type_specification]
#[verifier::external_body]
#[verifier::reject_recursive_types(T)]
pub struct ExInjector<T>(crossbeam_deque::Injector<T>);

/// Relies on `Worker::new_fifo`: creates an empty first-in first-out local queue.
pub assume_specification<T>[ crossbeam_deque::Worker::<T>::new_fifo ]() -> crossbeam_deque::Worker<T>;

/// Relies on `Worker::stealer`: a handle for other threads to steal from the queue.
pub assume_specification<T>[ crossbeam_deque::Worker::<T>::stealer ](
    w: &crossbeam_deque::Worker<T>,
) -> crossbeam_deque::Stealer<T>;

/// Relies on `Worker::push`: appends a task at the back of the local queue.
pub assume_specification<T>[ crossbeam_deque::Worker::<T>::push ](
    w: &crossbeam_deque::Worker<T>,
    task: T,
);

/// Relies on `Worker::pop`: takes the task at the front of a first-in first-out
/// queue, or `None` when it is empty.
pub assume_specification<T>[ crossbeam_deque::Worker::<T>::pop ](
    w: &crossbeam_deque::Worker<T>,
) -> Option<T>;

/// Relies on `Injector::steal_batch_and_pop`: moves a batch of tasks from the
/// global queue into `dest` and hands back one of them, or reports that the
/// queue was empty or that the attempt must be repeated.
#[verifier::external_body]
pub(crate) fn injector_steal_batch_and_pop<T>(
    q: &crossbeam_deque::Injector<T>,
    dest: &crossbeam_deque::Worker<T>,
) -> Steal<T> {
    match q.steal_batch_and_pop(dest) {
        crossbeam_deque::Steal::Empty => Steal::Empty,
        crossbeam_deque::Steal::Success(t) => Steal::Success(t),
        crossbeam_deque::Steal::Retry => Steal::Retry,
    }
}

/// Relies on `Stealer::steal_batch_and_pop`: moves a batch of tasks from another
/// processor's queue into `dest` and hands back one of them, or reports that the
/// queue was empty or that the attempt must be repeated.
#[verifier::external_body]
pub(crate) fn stealer_steal_batch_and_pop<T>(
    s: &crossbeam_deque::Stealer<T>,
    dest: &crossbeam_deque::Worker<T>,
) -> Steal<T> {
    match s.steal_batch_and_pop(dest) {
        crossbeam_deque::Steal::Empty => Steal::Empty,
        crossbeam_deque::Steal::Success(t) => Steal::Success(t),
        crossbeam_deque::Steal::Retry => Steal::Retry,
    }
}

} // verus!
