//! What one worker thread holds, and how it finds its next task.

use vstd::prelude::*;
use std::sync::Arc;
use crossbeam_deque::{Injector, Stealer, Worker};
use crate::deque::{owner_queue, steal_from_injector, steal_from_peer, thief_queue, Probe};
use crate::notifier::Notifier;
use crate::policy::{advance, begin, budget, eligible, Outcome, Source, Verdict};
use crate::task::Task;

verus! {

/// Everything a worker thread needs: its index in the pool, its own local
/// queue, the shared injector, a stealer for every local queue of the pool
/// (by index, its own included), and the shared notifier.
pub struct WorkerContext {
    index: usize,
    local: Worker<Task>,
    injector: Arc<Injector<Task>>,
    stealers: Vec<Stealer<Task>>,
    notifier: Arc<Notifier>,
}

/// How one scan over all the sources ended.
pub enum Scan {
    /// A task was taken from the given source.
    Found(Task, Source),
    /// Every source was seen empty.
    Idle,
    /// No task was taken, but contention hid what some source holds.
    Contended,
}

/// What a worker does after a scan.
pub enum Turn {
    /// Run the task that the scan found.
    Run(Task),
    /// Scan again from the top.
    Again,
    /// Take the notifier's lock and scan once more under it.
    Recheck,
    /// Sleep on the notifier until woken.
    Sleep,
}

/// What follows a scan, given how it ended and whether it was made under the
/// notifier's lock: [`turn_after`] as a function of both.
///
/// A task that was found is run. A scan that met contention is repeated. A
/// worker that saw every source empty may sleep only if it looked under the
/// lock; if it did not, it takes the lock and looks once more.
pub open spec fn turn_of(scan: Scan, locked: bool) -> Turn {
    match scan {
        Scan::Found(task, _) => Turn::Run(task),
        Scan::Contended => Turn::Again,
        Scan::Idle => if locked {
            Turn::Sleep
        } else {
            Turn::Recheck
        },
    }
}

/// Decides what a worker does after a scan that ended as `scan`, made under
/// the notifier's lock or not.
pub fn turn_after(scan: Scan, locked: bool) -> (turn: Turn)
    ensures
        turn == turn_of(scan, locked),
{
    match scan {
        Scan::Found(task, _) => Turn::Run(task),
        Scan::Contended => Turn::Again,
        Scan::Idle => {
            if locked {
                Turn::Sleep
            } else {
                Turn::Recheck
            }
        },
    }
}

/// A worker goes to sleep only after a scan that it made under the
/// notifier's lock and that saw every source empty, and it runs a task
/// whenever a scan found one.
pub proof fn lemma_sleep_only_under_lock(scan: Scan, locked: bool)
    ensures
        turn_of(scan, locked) is Sleep <==> locked && scan is Idle,
        turn_of(scan, locked) is Run <==> scan is Found,
{
}

impl WorkerContext {
    #[verifier::type_invariant]
    spec fn inv(self) -> bool {
        &&& self.index < self.stealers@.len()
        &&& thief_queue(self.stealers@[self.index as int]) == owner_queue(self.local)
    }

    /// The worker's index in its pool.
    pub closed spec fn spec_index(&self) -> usize {
        self.index
    }

    /// The size of the pool that the worker belongs to.
    pub closed spec fn spec_pool_size(&self) -> usize {
        self.stealers.len()
    }

    /// The owner's end of the worker's local queue.
    pub closed spec fn local(&self) -> Worker<Task> {
        self.local
    }

    /// The injector that the worker takes spawned tasks from.
    pub closed spec fn injector(&self) -> Injector<Task> {
        *self.injector
    }

    /// The stealers that the worker holds, one for each worker of the pool.
    pub closed spec fn stealers(&self) -> Seq<Stealer<Task>> {
        self.stealers@
    }

    /// The notifier that the worker sleeps on.
    pub closed spec fn notifier(&self) -> Notifier {
        *self.notifier
    }

    /// Puts a worker together from its parts.
    pub(crate) fn new(
        index: usize,
        local: Worker<Task>,
        injector: Arc<Injector<Task>>,
        stealers: Vec<Stealer<Task>>,
        notifier: Arc<Notifier>,
    ) -> (worker: WorkerContext)
        requires
            index < stealers@.len(),
            thief_queue(stealers@[index as int]) == owner_queue(local),
        ensures
            worker.spec_index() == index,
            worker.local() == local,
            worker.injector() == *injector,
            worker.stealers() == stealers@,
            worker.notifier() == *notifier,
            worker.spec_pool_size() == stealers@.len(),
    {
        WorkerContext { index, local, injector, stealers, notifier }
    }

    /// The worker's index in its pool.
    pub fn index(&self) -> (index: usize)
        ensures
            index == self.spec_index(),
            index < self.spec_pool_size(),
    {
        proof {
            use_type_invariant(self);
        }
        self.index
    }

    /// The size of the pool that the worker belongs to.
    pub fn pool_size(&self) -> (size: usize)
        ensures
            size == self.spec_pool_size(),
            size >= 1,
    {
        proof {
            use_type_invariant(self);
        }
        self.stealers.len()
    }

    /// Probes one source once: pops from the worker's own queue, steals from
    /// any other. Only a steal can meet contention; the owner's pop either
    /// takes a task or finds the queue empty.
    fn probe(&self, source: Source) -> (probe: Probe)
        requires
            eligible(source, self.spec_index(), self.spec_pool_size()),
        ensures
            source == Source::Local ==> !(probe is Retry),
    {
        match source {
            Source::Local => match self.local.pop() {
                Some(task) => Probe::Found(task),
                None => Probe::Empty,
            },
            Source::Injector => steal_from_injector(&self.injector),
            Source::Peer(j) => steal_from_peer(&self.stealers[j]),
        }
    }

    /// Looks for a task once in every source, in priority order: the local
    /// queue, the injector, then each peer by index. The scan ends with the
    /// first task found. It always ends: a source that keeps answering with
    /// contention is given up after a fixed number of probes.
    ///
    /// What the scan finds depends on the other threads. A task that is
    /// found comes from a source that this worker may probe.
    pub fn scan(&self) -> (scan: Scan)
        ensures
            scan matches Scan::Found(_, source) ==> eligible(
                source,
                self.spec_index(),
                self.spec_pool_size(),
            ),
    {
        let own = self.index;
        let peers = self.stealers.len();
        let mut cursor = begin();
        loop
            invariant
                own == self.spec_index(),
                peers == self.spec_pool_size(),
                eligible(cursor.source, own, peers),
            decreases budget(cursor, peers),
        {
            let outcome = match self.probe(cursor.source) {
                Probe::Found(task) => {
                    return Scan::Found(task, cursor.source);
                },
                Probe::Empty => Outcome::Empty,
                Probe::Retry => Outcome::Retry,
            };
            proof {
                crate::policy::lemma_scan_is_bounded(cursor, outcome, own, peers);
                crate::policy::lemma_successor_is_next(cursor.source, own, peers);
            }
            match advance(cursor, outcome, own, peers) {
                Verdict::Probe(next) => {
                    cursor = next;
                },
                Verdict::Contended => {
                    return Scan::Contended;
                },
                _ => {
                    return Scan::Idle;
                },
            }
        }
    }

    /// One turn of the worker loop: the task to run next, or `None` when the
    /// turn ended without one and the worker should take another turn.
    ///
    /// The worker scans its sources. If it sees them all empty, it takes the
    /// notifier's lock, scans once more, and sleeps only if that scan under
    /// the lock saw them all empty too; a spawner signals only after it has
    /// passed through the lock, so no task pushed before the sleep began is
    /// left without a wake. A scan that ended under contention never leads to
    /// sleep. The lock is released before the task, if any, is returned.
    pub fn next_task(&self) -> (task: Option<Task>) {
        match turn_after(self.scan(), false) {
            Turn::Run(task) => Some(task),
            Turn::Recheck => {
                let held = self.notifier.enter();
                match turn_after(self.scan(), true) {
                    Turn::Run(task) => Some(task),
                    Turn::Sleep => {
                        held.park();
                        None
                    },
                    _ => None,
                }
            },
            _ => None,
        }
    }
}

} // verus!
