//! The concurrent queues, which come from `crossbeam_deque`.
//!
//! The queues are shared among threads, so what one holds can change between
//! any two calls. The contracts here therefore say nothing about contents.
//! They say only which queue a handle serves, which never changes.

use vstd::prelude::*;
use crate::task::Task;

verus! {

/// `crossbeam_deque::Injector`, the shared first-in first-out entry queue.
#[verifier::external_type_specification]
#[verifier::external_body]
#[verifier::reject_recursive_types(T)]
pub struct ExInjector<T>(crossbeam_deque::Injector<T>);

/// `crossbeam_deque::Worker`, the owner's end of a worker's local queue.
#[verifier::external_type_specification]
#[verifier::external_body]
#[verifier::reject_recursive_types(T)]
pub struct ExWorker<T>(crossbeam_deque::Worker<T>);

/// `crossbeam_deque::Stealer`, the thieves' end of a worker's local queue.
#[verifier::external_type_specification]
#[verifier::external_body]
#[verifier::reject_recursive_types(T)]
pub struct ExStealer<T>(crossbeam_deque::Stealer<T>);

/// The local queue that an owner's handle serves.
pub uninterp spec fn owner_queue(local: crossbeam_deque::Worker<Task>) -> int;

/// The local queue that a thief's handle serves.
pub uninterp spec fn thief_queue(stealer: crossbeam_deque::Stealer<Task>) -> int;

/// What one attempt to take a task from a queue reported.
pub enum Probe {
    /// The queue held nothing at the time of the attempt.
    Empty,
    /// The attempt removed the carried task from the queue.
    Found(Task),
    /// Another thread got in the way; the queue may or may not hold tasks.
    Retry,
}

/// `Injector::new`: a new entry queue.
pub assume_specification<T>[ crossbeam_deque::Injector::<T>::new ]() -> (injector:
    crossbeam_deque::Injector<T>)
;

/// `Injector::push`: appends a task at the tail. It cannot fail, and it
/// returns nothing.
pub assume_specification<T>[ crossbeam_deque::Injector::<T>::push ](
    injector: &crossbeam_deque::Injector<T>,
    task: T,
)
;

/// `Worker::new_lifo`: a new local queue whose owner pops what it pushed last.
pub assume_specification<T>[ crossbeam_deque::Worker::<T>::new_lifo ]() -> (local:
    crossbeam_deque::Worker<T>)
;

/// `Worker::pop`: the owner's attempt to take a task from its own queue.
/// Thieves may empty the queue at any time, so either answer is possible.
pub assume_specification<T>[ crossbeam_deque::Worker::<T>::pop ](
    local: &crossbeam_deque::Worker<T>,
) -> (task: Option<T>)
;

/// `Worker::stealer`: a thief's handle. The handle shares the owner's queue,
/// which is all that the contract says.
#[verifier::external_body]
pub(crate) fn stealer_of(local: &crossbeam_deque::Worker<Task>) -> (stealer:
    crossbeam_deque::Stealer<Task>)
    ensures
        thief_queue(stealer) == owner_queue(*local),
{
    local.stealer()
}

/// `Stealer::clone`: a second handle on the same queue.
#[verifier::external_body]
pub(crate) fn another(stealer: &crossbeam_deque::Stealer<Task>) -> (copy:
    crossbeam_deque::Stealer<Task>)
    ensures
        thief_queue(copy) == thief_queue(*stealer),
{
    stealer.clone()
}

/// `Injector::steal`: one attempt to take the task at the head. The three
/// variants of the crate's `Steal` map one for one to [`Probe`]; which one
/// comes back depends on the other threads.
#[verifier::external_body]
pub(crate) fn steal_from_injector(injector: &crossbeam_deque::Injector<Task>) -> (probe: Probe) {
    match injector.steal() {
        crossbeam_deque::Steal::Empty => Probe::Empty,
        crossbeam_deque::Steal::Success(task) => Probe::Found(task),
        crossbeam_deque::Steal::Retry => Probe::Retry,
    }
}

/// `Stealer::steal`: one attempt to take the oldest task of a peer's local
/// queue. The three variants of the crate's `Steal` map one for one to
/// [`Probe`]; which one comes back depends on the other threads.
#[verifier::external_body]
pub(crate) fn steal_from_peer(stealer: &crossbeam_deque::Stealer<Task>) -> (probe: Probe) {
    match stealer.steal() {
        crossbeam_deque::Steal::Empty => Probe::Empty,
        crossbeam_deque::Steal::Success(task) => Probe::Found(task),
        crossbeam_deque::Steal::Retry => Probe::Retry,
    }
}

} // verus!
