//! The runtime: one injector, one notifier and a fixed pool of workers.

use vstd::prelude::*;
use std::sync::Arc;
use crossbeam_deque::{Injector, Stealer, Worker};
use once_cell::sync::OnceCell;
use crate::deque::{another, owner_queue, stealer_of, thief_queue};
use crate::notifier::Notifier;
use crate::task::Task;
use crate::worker::WorkerContext;

verus! {

/// `once_cell::sync::OnceCell`, a cell that is written at most once.
#[verifier::external_type_specification]
#[verifier::external_body]
#[verifier::reject_recursive_types(T)]
pub struct ExOnceCell<T>(OnceCell<T>);

/// The runtime that a cell holds from the moment it is filled, or `None` for
/// a cell that is never filled. A cell is written at most once and never
/// emptied through a shared reference, so whoever finds a runtime in a cell
/// finds this one.
pub uninterp spec fn installed(cell: OnceCell<Runtime>) -> Option<Runtime>;

/// `OnceCell::get`: the value in the cell, or `None` while the cell is empty
/// or being written. Another thread may fill the cell at any time, so either
/// answer is possible; a value that is found is the one the cell keeps.
#[verifier::external_body]
fn peek(cell: &OnceCell<Runtime>) -> (value: Option<&Runtime>)
    ensures
        value matches Some(found) ==> installed(*cell) == Some(*found),
{
    cell.get()
}

/// `OnceCell::try_insert`: writes `runtime` into the cell if the cell is
/// empty. `Ok` carries a reference to the value just written. `Err` means
/// that the cell was full already: it carries a reference to what the cell
/// holds and gives `runtime` back. Either way the reference is to the value
/// that the cell keeps.
#[verifier::external_body]
fn offer(cell: &OnceCell<Runtime>, runtime: Runtime) -> (outcome: Result<
    &Runtime,
    (&Runtime, Runtime),
>)
    ensures
        match outcome {
            Ok(kept) => *kept == runtime && installed(*cell) == Some(*kept),
            Err(full) => full.1 == runtime && installed(*cell) == Some(*full.0),
        },
{
    cell.try_insert(runtime)
}

/// `num_cpus::get`: the number of logical processors that this process may
/// use, which the crate documents to be at least one.
#[verifier::external_body]
fn cpu_count() -> (count: usize)
    ensures
        count >= 1,
{
    num_cpus::get()
}

/// `Arc::clone`: another pointer to the same value.
#[verifier::external_body]
fn share<T>(pointer: &Arc<T>) -> (copy: Arc<T>)
    ensures
        copy == *pointer,
{
    pointer.clone()
}

/// The part of the scheduler that spawners see: the injector that takes new
/// tasks, the notifier that wakes a sleeping worker, and the size of the
/// pool, which is fixed when the runtime is made.
pub struct Runtime {
    injector: Arc<Injector<Task>>,
    notifier: Arc<Notifier>,
    workers: usize,
}

impl Runtime {
    #[verifier::type_invariant]
    spec fn inv(self) -> bool {
        self.workers >= 1
    }

    /// The number of workers in the pool.
    pub closed spec fn spec_worker_count(&self) -> usize {
        self.workers
    }

    /// The injector that spawned tasks are pushed on.
    pub closed spec fn injector(&self) -> Injector<Task> {
        *self.injector
    }

    /// The notifier that spawners signal.
    pub closed spec fn notifier(&self) -> Notifier {
        *self.notifier
    }

    /// The number of workers in the pool. It never changes, and it is never
    /// zero.
    pub fn worker_count(&self) -> (count: usize)
        ensures
            count == self.spec_worker_count(),
            count >= 1,
    {
        proof {
            use_type_invariant(self);
        }
        self.workers
    }

    /// Hands a task to the pool: pushes it on the tail of the injector, then
    /// wakes at most one sleeping worker. If no worker sleeps the signal is
    /// lost, which is safe, because no worker goes to sleep without a last
    /// look at the injector under the notifier's lock.
    pub fn submit(&self, task: Task) {
        self.injector.push(task);
        self.notifier.wake_one();
    }
}

/// Whether `crew` is a whole pool: the workers stand in index order, share
/// one injector and one notifier, and each holds, for every worker of the
/// pool and in index order, a stealer that serves that worker's local queue.
pub open spec fn is_pool(crew: Seq<WorkerContext>) -> bool {
    forall|i: int|
        0 <= i < crew.len() ==> {
            &&& (#[trigger] crew[i]).spec_index() == i
            &&& crew[i].spec_pool_size() == crew.len()
            &&& crew[i].stealers().len() == crew.len()
            &&& crew[i].injector() == crew[0].injector()
            &&& crew[i].notifier() == crew[0].notifier()
            &&& forall|j: int|
                0 <= j < crew.len() ==> thief_queue(#[trigger] crew[i].stealers()[j])
                    == owner_queue(crew[j].local())
        }
}

/// Whether `crew` is the pool of `runtime`: a whole pool, of the size that the
/// runtime records, that takes its tasks from the runtime's injector and
/// sleeps on the runtime's notifier.
pub open spec fn staffs(crew: Seq<WorkerContext>, runtime: Runtime) -> bool {
    &&& crew.len() == runtime.spec_worker_count()
    &&& is_pool(crew)
    &&& crew[0].injector() == runtime.injector()
    &&& crew[0].notifier() == runtime.notifier()
}

/// A stealer for each of the given ones, on the same queue and in the same
/// order.
fn copy_stealers(stealers: &Vec<Stealer<Task>>) -> (copies: Vec<Stealer<Task>>)
    ensures
        copies@.len() == stealers@.len(),
        forall|j: int|
            0 <= j < stealers@.len() ==> thief_queue(#[trigger] copies@[j]) == thief_queue(
                stealers@[j],
            ),
{
    let mut copies: Vec<Stealer<Task>> = Vec::new();
    let mut j: usize = 0;
    while j < stealers.len()
        invariant
            j <= stealers@.len(),
            copies@.len() == j,
            forall|k: int|
                0 <= k < j ==> thief_queue(#[trigger] copies@[k]) == thief_queue(stealers@[k]),
        decreases stealers@.len() - j,
    {
        copies.push(another(&stealers[j]));
        j += 1;
    }
    copies
}

/// Makes a runtime with a pool of `workers` workers: one injector, one
/// notifier, and for each worker a local queue of its own and a stealer on
/// every local queue of the pool. The workers are returned with the runtime;
/// each is meant to be given to a thread of its own, which takes turns with
/// [`WorkerContext::next_task`] for ever.
pub fn assemble(workers: usize) -> (made: (Runtime, Vec<WorkerContext>))
    requires
        workers >= 1,
    ensures
        made.0.spec_worker_count() == workers,
        staffs(made.1@, made.0),
{
    let injector = Arc::new(Injector::new());
    let notifier = Arc::new(Notifier::new());
    let mut locals: Vec<Worker<Task>> = Vec::new();
    let mut stealers: Vec<Stealer<Task>> = Vec::new();
    let mut made: usize = 0;
    while made < workers
        invariant
            made <= workers,
            locals@.len() == made,
            stealers@.len() == made,
            forall|j: int|
                0 <= j < made ==> thief_queue(#[trigger] stealers@[j]) == owner_queue(locals@[j]),
        decreases workers - made,
    {
        let local = Worker::new_lifo();
        stealers.push(stealer_of(&local));
        locals.push(local);
        made += 1;
    }
    let ghost queues = locals@;
    let mut crew: Vec<WorkerContext> = Vec::new();
    let mut index: usize = 0;
    while index < workers
        invariant
            index <= workers,
            workers >= 1,
            stealers@.len() == workers,
            queues.len() == workers,
            locals@ == queues.skip(index as int),
            forall|j: int|
                0 <= j < workers ==> thief_queue(#[trigger] stealers@[j]) == owner_queue(queues[j]),
            crew@.len() == index,
            forall|i: int|
                0 <= i < index ==> {
                    &&& (#[trigger] crew@[i]).spec_index() == i
                    &&& crew@[i].spec_pool_size() == workers
                    &&& crew@[i].stealers().len() == workers
                    &&& crew@[i].local() == queues[i]
                    &&& crew@[i].injector() == *injector
                    &&& crew@[i].notifier() == *notifier
                    &&& forall|j: int|
                        0 <= j < workers ==> thief_queue(#[trigger] crew@[i].stealers()[j])
                            == owner_queue(queues[j])
                },
        decreases workers - index,
    {
        let local = locals.remove(0);
        assert(locals@ == queues.skip(index + 1));
        let worker = WorkerContext::new(
            index,
            local,
            share(&injector),
            copy_stealers(&stealers),
            share(&notifier),
        );
        crew.push(worker);
        index += 1;
    }
    (Runtime { injector, notifier, workers }, crew)
}

/// What a caller gets after it tried to install `runtime` in a cell: the
/// runtime that the cell holds, and the workers that the caller must start.
/// If the cell took the runtime, these are the workers made with it. If the
/// cell was full, the runtime that came back is dropped with its workers, and
/// there is nothing to start.
pub fn settle<'a>(
    outcome: Result<&'a Runtime, (&'a Runtime, Runtime)>,
    crew: Vec<WorkerContext>,
) -> (settled: (&'a Runtime, Vec<WorkerContext>))
    ensures
        match outcome {
            Ok(kept) => settled.0 == kept && settled.1 == crew,
            Err(full) => settled.0 == full.0 && settled.1@.len() == 0,
        },
{
    match outcome {
        Ok(kept) => (kept, crew),
        Err(full) => (full.0, Vec::new()),
    }
}

/// Makes sure that `cell` holds a runtime, and returns it with the workers
/// that the caller must start.
///
/// If the cell holds a runtime already, nothing is made and no workers are
/// returned. Otherwise a runtime with one worker for each processor is made
/// and offered to the cell. Of all the callers that do so at the same time
/// the cell takes the runtime of exactly one; that caller gets the whole pool
/// of the runtime that the cell now holds, and every other caller gets no
/// workers. So however many callers there are, one pool is started, and every
/// caller is handed the same runtime: the one that the cell keeps.
pub fn init_runtime(cell: &OnceCell<Runtime>) -> (ready: (&Runtime, Vec<WorkerContext>))
    ensures
        installed(*cell) == Some(*ready.0),
        ready.0.spec_worker_count() >= 1,
        ready.1@.len() == 0 || staffs(ready.1@, *ready.0),
{
    match peek(cell) {
        Some(runtime) => {
            proof {
                use_type_invariant(runtime);
            }
            (runtime, Vec::new())
        },
        None => {
            let (runtime, crew) = assemble(cpu_count());
            let ready = settle(offer(cell, runtime), crew);
            proof {
                use_type_invariant(ready.0);
            }
            ready
        },
    }
}

/// Schedules `task` to run once on the pool of the runtime in `cell`, which
/// is made first if the cell is empty. The task goes on the tail of the
/// injector, and at most one sleeping worker is woken. When the call returns
/// the cell holds a runtime. The workers that the caller must start are
/// returned: the whole pool of that runtime if this call made it, and none
/// otherwise.
pub fn spawn(cell: &OnceCell<Runtime>, task: Task) -> (crew: Vec<WorkerContext>)
    ensures
        installed(*cell) matches Some(runtime) && (crew@.len() == 0 || staffs(crew@, runtime)),
{
    let (runtime, crew) = init_runtime(cell);
    runtime.submit(task);
    crew
}

} // verus!
