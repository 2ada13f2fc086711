//! A scheduler of lightweight tasks on a fixed pool of worker threads that
//! steal work from a shared entry queue and from one another.
//!
//! The library holds the scheduler's state and decisions; it starts no
//! thread itself. The embedding program keeps the cell with the runtime,
//! gives each [`WorkerContext`] that a call returns to a thread of its own,
//! and lets that thread take turns with [`WorkerContext::next_task`], running
//! each task it gets.

use vstd::prelude::*;
use once_cell::sync::OnceCell;

pub mod task;
pub mod deque;
pub mod notifier;
pub mod policy;
pub mod worker;
pub mod scheduler;
pub mod protocol;

pub use crate::scheduler::Runtime;
use crate::scheduler::{installed, staffs};
pub use crate::task::Task;
pub use crate::worker::WorkerContext;

verus! {

/// Schedules the closure `f` to run once, as a task of its own, on the pool
/// of the runtime in `cell`. The runtime is made on first use, so when the
/// call returns the cell holds one. The workers that the caller must start
/// are returned: the whole pool of that runtime if this call made it, and
/// none otherwise.
pub fn go<F>(cell: &OnceCell<Runtime>, f: F) -> (crew: Vec<WorkerContext>) where
    F: FnOnce() + Send + 'static,

    ensures
        installed(*cell) matches Some(runtime) && (crew@.len() == 0 || staffs(crew@, runtime)),
{
    crate::scheduler::spawn(cell, crate::task::boxed(f))
}

/// Makes the runtime in `cell` now rather than on the first [`go`]; does
/// nothing if the cell holds one already. Either way the cell holds a
/// runtime when the call returns. The workers that the caller must start are
/// returned: the whole pool of that runtime if this call made it, and none
/// otherwise.
pub fn init(cell: &OnceCell<Runtime>) -> (crew: Vec<WorkerContext>)
    ensures
        installed(*cell) matches Some(runtime) && (crew@.len() == 0 || staffs(crew@, runtime)),
{
    let (_, crew) = crate::scheduler::init_runtime(cell);
    crew
}

} // verus!
