//! A model of the whole scheduler, and what holds of it.
//!
//! The queues of a running pool change under every thread's hands, so no
//! contract of an executable function can speak of what they hold. This
//! module describes the pool as one value, a [`Pool`], that changes by
//! [`Event`]s, each of which stands for one step that some thread takes as a
//! whole:
//!
//! * `Push` and `Signal` are the two halves of [`crate::scheduler::Runtime::submit`]:
//!   the push on the injector, and the pass through the notifier's lock that
//!   ends in the signal;
//! * `Claim` is a scan of [`crate::worker::WorkerContext::scan`] that finds a
//!   task, `Park` is a scan under the notifier's lock that sees every source
//!   empty and turns into sleep, both decided by [`crate::policy::next_move`];
//! * `Finish` is the return of a task's closure, and `Yield` a task that
//!   gives up its thread's time slice.
//!
//! A scan is taken to see each queue as it is, so it is quiet: no probe
//! answers with contention. A scan that did meet contention neither claims
//! nor parks, and so is no event.

use vstd::prelude::*;
use vstd::multiset::Multiset;
use crate::policy::{
    budget, eligible, next_move, rank, start, Cursor, Outcome, Source, Verdict,
};

verus! {

/// What a worker is doing.
pub enum Phase {
    /// Looking for work.
    Awake,
    /// Running the task with this number.
    Running(nat),
    /// Asleep on the notifier.
    Parked,
}

/// One worker of the pool: its local queue, oldest task first, and its phase.
pub struct Member {
    pub local: Seq<nat>,
    pub phase: Phase,
}

/// The pool as a whole. Tasks are numbers.
pub struct Pool {
    /// The injector, oldest task first.
    pub injector: Seq<nat>,
    /// The workers, by index.
    pub members: Seq<Member>,
    /// How many spawners have pushed a task and not yet signalled.
    pub owed: nat,
    /// The tasks that have run to their end.
    pub done: Multiset<nat>,
}

/// A step of one thread.
pub enum Event {
    /// A spawner pushes the given task on the injector.
    Push(nat),
    /// A spawner that has pushed passes the lock and signals. The signal
    /// wakes the given sleeper; it wakes nobody only if nobody sleeps.
    Signal(Option<usize>),
    /// This worker, awake, scans and takes the task that the scan finds.
    Claim(usize),
    /// This worker's task returns.
    Finish(usize),
    /// This worker, awake and under the lock, scans, finds every source
    /// empty, and goes to sleep.
    Park(usize),
    /// The task that this worker runs yields its thread.
    Yield(usize),
}

impl Pool {
    /// The number of workers.
    pub open spec fn size(self) -> usize {
        self.members.len() as usize
    }

    /// A pool of `workers` workers, all awake, that has seen no task yet.
    pub open spec fn fresh(workers: usize) -> Pool {
        Pool {
            injector: Seq::empty(),
            members: Seq::new(workers as nat, |i: int| Member { local: Seq::empty(), phase: Phase::Awake }),
            owed: 0,
            done: Multiset::empty(),
        }
    }

    /// The queue behind a source, as worker `own` sees it, oldest task first.
    /// A source that the worker may not probe counts as empty.
    pub open spec fn queue(self, own: usize, source: Source) -> Seq<nat> {
        match source {
            Source::Local => self.members[own as int].local,
            Source::Injector => self.injector,
            Source::Peer(j) => if eligible(source, own, self.size()) {
                self.members[j as int].local
            } else {
                Seq::empty()
            },
        }
    }

    /// What a probe of `source` by worker `own` answers when no other thread
    /// interferes.
    pub open spec fn answer(self, own: usize, source: Source) -> Outcome {
        if self.queue(own, source).len() > 0 {
            Outcome::Found
        } else {
            Outcome::Empty
        }
    }

    /// How the scan of worker `own` ends from `cursor` on, with every probe
    /// answered by [`Pool::answer`] and every move decided by [`next_move`].
    pub open spec fn scan_from(self, own: usize, cursor: Cursor) -> Verdict
        decreases budget(cursor, self.size()),
    {
        match next_move(cursor, self.answer(own, cursor.source), own, self.size()) {
            Verdict::Probe(next) => self.scan_from(own, next),
            verdict => verdict,
        }
    }

    /// How a whole scan of worker `own` ends.
    pub open spec fn scan(self, own: usize) -> Verdict {
        self.scan_from(own, start())
    }

    /// The task that a probe of `source` takes: the youngest of the worker's
    /// own queue, the oldest of any other.
    pub open spec fn task_at(self, own: usize, source: Source) -> nat {
        match source {
            Source::Local => self.queue(own, source).last(),
            _ => self.queue(own, source).first(),
        }
    }

    /// The pool with one member replaced.
    pub open spec fn with_member(self, index: usize, member: Member) -> Pool {
        Pool { members: self.members.update(index as int, member), ..self }
    }

    /// The pool after worker `own` took the task at `source` and began to
    /// run it.
    pub open spec fn claim(self, own: usize, source: Source) -> Pool {
        let task = self.task_at(own, source);
        let me = self.members[own as int];
        match source {
            Source::Local => self.with_member(
                own,
                Member { local: me.local.drop_last(), phase: Phase::Running(task) },
            ),
            Source::Injector => Pool { injector: self.injector.drop_first(), ..self }.with_member(
                own,
                Member { local: me.local, phase: Phase::Running(task) },
            ),
            Source::Peer(j) => {
                let peer = self.members[j as int];
                self.with_member(j, Member { local: peer.local.drop_first(), phase: peer.phase })
                    .with_member(own, Member { local: me.local, phase: Phase::Running(task) })
            },
        }
    }

    /// Whether the event can happen now.
    pub open spec fn enabled(self, event: Event) -> bool {
        match event {
            Event::Push(_) => true,
            Event::Signal(woken) => self.owed > 0 && match woken {
                Some(w) => w < self.size() && self.members[w as int].phase == Phase::Parked,
                None => forall|w: int|
                    0 <= w < self.members.len() ==> (#[trigger] self.members[w]).phase
                        != Phase::Parked,
            },
            Event::Claim(w) => w < self.size() && self.members[w as int].phase == Phase::Awake
                && self.scan(w) is Claim,
            Event::Finish(w) => w < self.size() && self.members[w as int].phase is Running,
            Event::Park(w) => w < self.size() && self.members[w as int].phase == Phase::Awake
                && self.scan(w) == Verdict::Idle,
            Event::Yield(w) => w < self.size() && self.members[w as int].phase is Running,
        }
    }

    /// The pool after the event.
    pub open spec fn step(self, event: Event) -> Pool {
        match event {
            Event::Push(task) => Pool {
                injector: self.injector.push(task),
                owed: self.owed + 1,
                ..self
            },
            Event::Signal(woken) => {
                let paid = Pool { owed: (self.owed - 1) as nat, ..self };
                match woken {
                    Some(w) => paid.with_member(
                        w,
                        Member { local: self.members[w as int].local, phase: Phase::Awake },
                    ),
                    None => paid,
                }
            },
            Event::Claim(w) => match self.scan(w) {
                Verdict::Claim(source) => self.claim(w, source),
                _ => self,
            },
            Event::Finish(w) => match self.members[w as int].phase {
                Phase::Running(task) => Pool { done: self.done.insert(task), ..self }.with_member(
                    w,
                    Member { local: self.members[w as int].local, phase: Phase::Awake },
                ),
                _ => self,
            },
            Event::Park(w) => self.with_member(
                w,
                Member { local: self.members[w as int].local, phase: Phase::Parked },
            ),
            Event::Yield(_) => self,
        }
    }

    /// What holds of a pool at all times: it has a worker; a sleeper's local
    /// queue is empty; and while the injector holds a task, some worker is
    /// not asleep or some spawner still owes its signal.
    pub open spec fn inv(self) -> bool {
        &&& 1 <= self.members.len() <= usize::MAX
        &&& forall|w: int|
            0 <= w < self.members.len() && (#[trigger] self.members[w]).phase == Phase::Parked
                ==> self.members[w].local.len() == 0
        &&& self.injector.len() > 0 ==> self.owed > 0 || exists|w: int|
            0 <= w < self.members.len() && (#[trigger] self.members[w]).phase != Phase::Parked
    }
}

/// A quiet scan keeps to the priority order. If it claims, it claims from a
/// source that the worker may probe and that holds a task, and every source
/// of higher priority that the worker may probe is empty. If it claims
/// nothing, it ends idle, and every source that the worker may probe is
/// empty. The same holds of a scan that is under way, for the sources from
/// the cursor on.
pub proof fn lemma_scan_keeps_priority(pool: Pool, own: usize, cursor: Cursor)
    requires
        own < pool.size(),
        pool.members.len() <= usize::MAX,
        eligible(cursor.source, own, pool.size()),
        !cursor.contended,
    ensures
        match pool.scan_from(own, cursor) {
            Verdict::Claim(source) => {
                &&& eligible(source, own, pool.size())
                &&& rank(cursor.source) <= rank(source)
                &&& pool.queue(own, source).len() > 0
                &&& forall|other: Source|
                    rank(cursor.source) <= rank(other) < rank(source) ==> pool.queue(
                        own,
                        other,
                    ).len() == 0
            },
            Verdict::Idle => forall|other: Source|
                rank(cursor.source) <= rank(other) ==> pool.queue(own, other).len() == 0,
            _ => false,
        },
    decreases budget(cursor, pool.size()),
{
    let peers = pool.size();
    crate::policy::lemma_successor_is_next(cursor.source, own, peers);
    match next_move(cursor, pool.answer(own, cursor.source), own, peers) {
        Verdict::Probe(next) => {
            lemma_scan_keeps_priority(pool, own, next);
            assert forall|other: Source| rank(cursor.source) <= rank(other) < rank(next.source)
                implies pool.queue(own, other).len() == 0 by {
                if rank(other) == rank(cursor.source) {
                    assert(other == cursor.source);
                }
            }
        },
        Verdict::Claim(source) => {},
        _ => {
            assert forall|other: Source| rank(cursor.source) <= rank(other) implies pool.queue(
                own,
                other,
            ).len() == 0 by {
                if rank(other) == rank(cursor.source) {
                    assert(other == cursor.source);
                }
            }
        },
    }
}

/// The tasks that a worker holds: those in its local queue, and the one it
/// runs.
pub open spec fn member_tasks(member: Member) -> Multiset<nat> {
    match member.phase {
        Phase::Running(task) => member.local.to_multiset().insert(task),
        _ => member.local.to_multiset(),
    }
}

/// The tasks that the workers hold, all together.
pub open spec fn held(members: Seq<Member>) -> Multiset<nat>
    decreases members.len(),
{
    if members.len() == 0 {
        Multiset::empty()
    } else {
        held(members.drop_last()).add(member_tasks(members.last()))
    }
}

/// The number of workers that are awake and run no task.
pub open spec fn idle(members: Seq<Member>) -> nat
    decreases members.len(),
{
    if members.len() == 0 {
        0
    } else {
        idle(members.drop_last()) + if members.last().phase == Phase::Awake {
            1nat
        } else {
            0nat
        }
    }
}

impl Pool {
    /// The tasks that wait in a queue or are being run.
    pub open spec fn unfinished(self) -> Multiset<nat> {
        self.injector.to_multiset().add(held(self.members))
    }

    /// Every task that the pool has ever taken and not lost: unfinished or
    /// done.
    pub open spec fn tasks(self) -> Multiset<nat> {
        self.unfinished().add(self.done)
    }

    /// Whether nothing is left to do: every queue is empty and no worker runs
    /// a task.
    pub open spec fn settled(self) -> bool {
        &&& self.injector.len() == 0
        &&& forall|w: int|
            0 <= w < self.members.len() ==> {
                &&& (#[trigger] self.members[w]).local.len() == 0
                &&& !(self.members[w].phase is Running)
            }
    }

    /// A bound on the steps that the workers and the spawners that owe a
    /// signal can still take if no new task is pushed.
    pub open spec fn potential(self) -> nat {
        2 * self.unfinished().len() + 2 * self.owed + idle(self.members)
    }
}

/// Whether the event is a step of a worker that looks for work or ends a
/// task, or the signal of a spawner: the steps that move the pool towards
/// rest.
pub open spec fn advancing(event: Event) -> bool {
    event is Signal || event is Claim || event is Finish || event is Park
}

/// Replacing one worker changes what the workers hold, and how many of them
/// are idle, by the difference between the old worker and the new.
pub proof fn lemma_replace_member(members: Seq<Member>, index: int, member: Member)
    requires
        0 <= index < members.len(),
    ensures
        forall|task: nat|
            #[trigger] held(members.update(index, member)).count(task) + member_tasks(
                members[index],
            ).count(task) == held(members).count(task) + member_tasks(member).count(task),
        idle(members.update(index, member)) + (if members[index].phase == Phase::Awake {
            1nat
        } else {
            0nat
        }) == idle(members) + (if member.phase == Phase::Awake {
            1nat
        } else {
            0nat
        }),
    decreases members.len(),
{
    let changed = members.update(index, member);
    let rest = members.drop_last();
    if index == members.len() - 1 {
        assert(changed.drop_last() =~= rest);
    } else {
        lemma_replace_member(rest, index, member);
        assert(changed.drop_last() =~= rest.update(index, member));
    }
    assert forall|task: nat|
        #[trigger] held(changed).count(task) + member_tasks(members[index]).count(task) == held(
            members,
        ).count(task) + member_tasks(member).count(task) by {
        assert(held(changed).count(task) == held(changed.drop_last()).count(task) + member_tasks(
            changed.last(),
        ).count(task));
        assert(held(members).count(task) == held(rest).count(task) + member_tasks(
            members.last(),
        ).count(task));
    }
}

/// What one worker holds is among what the workers hold together.
pub proof fn lemma_held_covers_member(members: Seq<Member>, index: int, task: nat)
    requires
        0 <= index < members.len(),
    ensures
        member_tasks(members[index]).count(task) <= held(members).count(task),
    decreases members.len(),
{
    if index < members.len() - 1 {
        lemma_held_covers_member(members.drop_last(), index, task);
    }
}

/// Taking the task at either end of a queue leaves the other tasks, each as
/// often as before.
pub proof fn lemma_take_from_queue(queue: Seq<nat>)
    requires
        queue.len() > 0,
    ensures
        queue.drop_last().to_multiset().insert(queue.last()) == queue.to_multiset(),
        queue.drop_first().to_multiset().insert(queue.first()) == queue.to_multiset(),
{
    queue.to_multiset_ensures();
    assert(queue.drop_last() =~= queue.remove(queue.len() - 1));
    assert(queue.drop_first() =~= queue.remove(0));
    assert(queue.to_multiset().count(queue.last()) > 0) by {
        assert(queue.contains(queue.last()));
    }
    assert(queue.to_multiset().count(queue.first()) > 0) by {
        assert(queue.contains(queue.first()));
    }
    assert(queue.drop_last().to_multiset().insert(queue.last()) =~= queue.to_multiset());
    assert(queue.drop_first().to_multiset().insert(queue.first()) =~= queue.to_multiset());
}

/// No step loses a task or makes one up, and none but a push brings one in:
/// a push adds its task to the tasks of the pool, and every other step leaves
/// them as they are. A task leaves the unfinished ones only by being done.
pub proof fn lemma_tasks_are_conserved(pool: Pool, event: Event)
    requires
        pool.inv(),
        pool.enabled(event),
    ensures
        pool.step(event).tasks() == match event {
            Event::Push(task) => pool.tasks().insert(task),
            _ => pool.tasks(),
        },
        pool.step(event).unfinished() == match event {
            Event::Push(task) => pool.unfinished().insert(task),
            Event::Finish(w) => pool.unfinished().remove(pool.members[w as int].phase->0),
            _ => pool.unfinished(),
        },
        event matches Event::Finish(w) ==> pool.unfinished().count(
            pool.members[w as int].phase->0,
        ) > 0,
{
    let after = pool.step(event);
    match event {
        Event::Push(task) => {
            pool.injector.to_multiset_ensures();
        },
        Event::Signal(Some(w)) => {
            lemma_replace_member(pool.members, w as int, after.members[w as int]);
        },
        Event::Signal(None) => {},
        Event::Claim(w) => {
            lemma_scan_keeps_priority(pool, w, start());
            let source = pool.scan(w)->Claim_0;
            lemma_take_from_queue(pool.queue(w, source));
            match source {
                Source::Local => {
                    lemma_replace_member(pool.members, w as int, after.members[w as int]);
                },
                Source::Injector => {
                    lemma_replace_member(pool.members, w as int, after.members[w as int]);
                },
                Source::Peer(j) => {
                    let between = pool.with_member(
                        j,
                        Member {
                            local: pool.members[j as int].local.drop_first(),
                            phase: pool.members[j as int].phase,
                        },
                    );
                    lemma_replace_member(pool.members, j as int, between.members[j as int]);
                    lemma_replace_member(between.members, w as int, after.members[w as int]);
                },
            }
        },
        Event::Finish(w) => {
            lemma_replace_member(pool.members, w as int, after.members[w as int]);
        },
        Event::Park(w) => {
            lemma_replace_member(pool.members, w as int, after.members[w as int]);
        },
        Event::Yield(_) => {},
    }
    if let Event::Finish(w) = event {
        let task = pool.members[w as int].phase->0;
        lemma_held_covers_member(pool.members, w as int, task);
    }
    assert(after.unfinished() =~= match event {
        Event::Push(task) => pool.unfinished().insert(task),
        Event::Finish(w) => pool.unfinished().remove(pool.members[w as int].phase->0),
        _ => pool.unfinished(),
    });
    assert(after.tasks() =~= match event {
        Event::Push(task) => pool.tasks().insert(task),
        _ => pool.tasks(),
    });
}

/// Every step keeps the invariant, and none changes the number of workers.
pub proof fn lemma_step_keeps_invariant(pool: Pool, event: Event)
    requires
        pool.inv(),
        pool.enabled(event),
    ensures
        pool.step(event).inv(),
        pool.step(event).size() == pool.size(),
{
    let after = pool.step(event);
    match event {
        Event::Push(_) => {},
        Event::Signal(Some(w)) => {
            assert(after.members[w as int].phase != Phase::Parked);
        },
        Event::Signal(None) => {
            assert(after.members[0].phase != Phase::Parked);
        },
        Event::Claim(w) => {
            lemma_scan_keeps_priority(pool, w, start());
            assert(after.members[w as int].phase != Phase::Parked);
        },
        Event::Finish(w) => {
            assert(after.members[w as int].phase != Phase::Parked);
        },
        Event::Park(w) => {
            lemma_scan_keeps_priority(pool, w, start());
            assert(pool.queue(w, Source::Local).len() == 0);
            assert(pool.queue(w, Source::Injector).len() == 0);
        },
        Event::Yield(_) => {},
    }
}

/// A task that yields its thread changes nothing in the pool: not what
/// waits, not what runs, not what is done.
pub proof fn lemma_yield_changes_nothing(pool: Pool, worker: usize)
    ensures
        pool.step(Event::Yield(worker)) == pool,
{
}

/// A pool with work left is never stuck: as long as a task waits or runs,
/// some task can be finished, some worker can claim one, or some spawner can
/// give the signal it owes. The event returned is one that can happen.
pub proof fn lemma_never_stuck(pool: Pool) -> (event: Event)
    requires
        pool.inv(),
        !pool.settled(),
    ensures
        event is Finish || event is Claim || event is Signal,
        pool.enabled(event),
{
    let members = pool.members;
    if exists|w: int| 0 <= w < members.len() && (#[trigger] members[w]).phase is Running {
        let w = choose|w: int| 0 <= w < members.len() && (#[trigger] members[w]).phase is Running;
        Event::Finish(w as usize)
    } else if pool.owed > 0 {
        if exists|w: int| 0 <= w < members.len() && (#[trigger] members[w]).phase == Phase::Parked {
            let w = choose|w: int|
                0 <= w < members.len() && (#[trigger] members[w]).phase == Phase::Parked;
            Event::Signal(Some(w as usize))
        } else {
            Event::Signal(None)
        }
    } else if pool.injector.len() > 0 {
        let w = choose|w: int|
            0 <= w < members.len() && (#[trigger] members[w]).phase != Phase::Parked;
        lemma_scan_keeps_priority(pool, w as usize, start());
        assert(pool.queue(w as usize, Source::Injector).len() > 0);
        Event::Claim(w as usize)
    } else {
        let w = choose|w: int| 0 <= w < members.len() && (#[trigger] members[w]).local.len() > 0;
        lemma_scan_keeps_priority(pool, w as usize, start());
        assert(pool.queue(w as usize, Source::Local).len() > 0);
        Event::Claim(w as usize)
    }
}

/// Work cannot be put off for ever: every step of a worker that looks for
/// work or ends a task, and every signal, lowers the potential of the pool.
/// So between two pushes only so many such steps can happen, and by
/// [`lemma_never_stuck`] they do not run out before every task is done.
pub proof fn lemma_steps_are_bounded(pool: Pool, event: Event)
    requires
        pool.inv(),
        pool.enabled(event),
        advancing(event),
    ensures
        pool.step(event).potential() < pool.potential(),
{
    let after = pool.step(event);
    lemma_tasks_are_conserved(pool, event);
    match event {
        Event::Signal(Some(w)) => {
            lemma_replace_member(pool.members, w as int, after.members[w as int]);
        },
        Event::Claim(w) => {
            lemma_scan_keeps_priority(pool, w, start());
            match pool.scan(w)->Claim_0 {
                Source::Peer(j) => {
                    let between = pool.with_member(
                        j,
                        Member {
                            local: pool.members[j as int].local.drop_first(),
                            phase: pool.members[j as int].phase,
                        },
                    );
                    lemma_replace_member(pool.members, j as int, between.members[j as int]);
                    lemma_replace_member(between.members, w as int, after.members[w as int]);
                },
                _ => {
                    lemma_replace_member(pool.members, w as int, after.members[w as int]);
                },
            }
        },
        Event::Finish(w) => {
            lemma_replace_member(pool.members, w as int, after.members[w as int]);
            let task = pool.members[w as int].phase->0;
            assert(pool.unfinished() =~= after.unfinished().insert(task));
        },
        Event::Park(w) => {
            lemma_replace_member(pool.members, w as int, after.members[w as int]);
        },
        _ => {},
    }
}

/// No wake is missed. When every worker sleeps and a task is pushed, the one
/// thing that can happen next is the spawner's signal; it wakes a sleeper,
/// and that worker can claim a task at once: the task just pushed, since no
/// other is waiting.
pub proof fn lemma_sleepers_are_woken(pool: Pool, task: nat, event: Event)
    requires
        pool.inv(),
        pool.injector.len() == 0,
        pool.owed == 0,
        forall|w: int|
            0 <= w < pool.members.len() ==> (#[trigger] pool.members[w]).phase == Phase::Parked,
        advancing(event),
        pool.step(Event::Push(task)).enabled(event),
    ensures
        event matches Event::Signal(Some(w)) && {
            let woken = pool.step(Event::Push(task)).step(event);
            &&& woken.enabled(Event::Claim(w))
            &&& woken.step(Event::Claim(w)).members[w as int].phase == Phase::Running(task)
        },
{
    let pushed = pool.step(Event::Push(task));
    assert(pushed.members[0].phase == Phase::Parked);
    match event {
        Event::Signal(Some(w)) => {
            let woken = pushed.step(event);
            lemma_step_keeps_invariant(pool, Event::Push(task));
            lemma_step_keeps_invariant(pushed, event);
            lemma_scan_keeps_priority(woken, w, start());
            assert(woken.queue(w, Source::Local).len() == 0);
            assert(woken.queue(w, Source::Injector).len() > 0);
            assert(woken.injector[0] == task);
        },
        Event::Claim(w) => {
            assert(pushed.members[w as int].phase == Phase::Parked);
        },
        Event::Finish(w) => {
            assert(pushed.members[w as int].phase == Phase::Parked);
        },
        Event::Park(w) => {
            assert(pushed.members[w as int].phase == Phase::Parked);
        },
        _ => {},
    }
}

/// Whether the events can happen one after the other, starting from `pool`.
pub open spec fn valid(pool: Pool, events: Seq<Event>) -> bool
    decreases events.len(),
{
    events.len() == 0 || (pool.enabled(events.first()) && valid(
        pool.step(events.first()),
        events.drop_first(),
    ))
}

/// The pool after the events have happened one after the other.
pub open spec fn run(pool: Pool, events: Seq<Event>) -> Pool
    decreases events.len(),
{
    if events.len() == 0 {
        pool
    } else {
        run(pool.step(events.first()), events.drop_first())
    }
}

/// The tasks that the events push, each as often as it is pushed.
pub open spec fn pushed(events: Seq<Event>) -> Multiset<nat>
    decreases events.len(),
{
    if events.len() == 0 {
        Multiset::empty()
    } else {
        match events.first() {
            Event::Push(task) => pushed(events.drop_first()).insert(task),
            _ => pushed(events.drop_first()),
        }
    }
}

/// Workers that hold nothing hold no task.
pub proof fn lemma_empty_hands(members: Seq<Member>)
    requires
        forall|w: int|
            0 <= w < members.len() ==> (#[trigger] members[w]).local.len() == 0
                && !(members[w].phase is Running),
    ensures
        held(members) == Multiset::<nat>::empty(),
    decreases members.len(),
{
    if members.len() > 0 {
        lemma_empty_hands(members.drop_last());
        members.last().local.to_multiset_ensures();
        assert(members.last().local =~= Seq::empty());
        assert(member_tasks(members.last()).len() == 0);
    }
    assert(held(members) =~= Multiset::<nat>::empty());
}

/// Whatever happens, in whatever order and from however many threads, the
/// pool keeps its invariant and its size, and its tasks are those it had
/// plus those that were pushed: none lost, none run twice.
pub proof fn lemma_run_conserves_tasks(pool: Pool, events: Seq<Event>)
    requires
        pool.inv(),
        valid(pool, events),
    ensures
        run(pool, events).inv(),
        run(pool, events).size() == pool.size(),
        run(pool, events).tasks() == pool.tasks().add(pushed(events)),
    decreases events.len(),
{
    if events.len() == 0 {
        assert(pool.tasks().add(pushed(events)) =~= pool.tasks());
    } else {
        let next = pool.step(events.first());
        lemma_step_keeps_invariant(pool, events.first());
        lemma_tasks_are_conserved(pool, events.first());
        lemma_run_conserves_tasks(next, events.drop_first());
        assert(next.tasks().add(pushed(events.drop_first())) =~= pool.tasks().add(pushed(events)));
    }
}

/// Every task is run exactly as often as it was spawned. Start a pool of at
/// least one worker and let anything happen; whenever the pool has come to
/// rest, the tasks done are the tasks pushed, each once for each push. With
/// [`lemma_never_stuck`] and [`lemma_steps_are_bounded`], the pool does come
/// to rest once the pushes end.
pub proof fn lemma_every_task_runs_once(workers: usize, events: Seq<Event>)
    requires
        workers >= 1,
        valid(Pool::fresh(workers), events),
        run(Pool::fresh(workers), events).settled(),
    ensures
        run(Pool::fresh(workers), events).done == pushed(events),
        run(Pool::fresh(workers), events).size() == workers,
{
    let first = Pool::fresh(workers);
    let last = run(first, events);
    assert(first.members[0].phase != Phase::Parked);
    lemma_empty_hands(first.members);
    lemma_run_conserves_tasks(first, events);
    lemma_empty_hands(last.members);
    first.injector.to_multiset_ensures();
    last.injector.to_multiset_ensures();
    assert(last.injector =~= Seq::empty());
    assert forall|task: nat| last.done.count(task) == pushed(events).count(task) by {
        assert(first.injector.to_multiset().count(task) <= first.injector.to_multiset().len());
        assert(last.injector.to_multiset().count(task) <= last.injector.to_multiset().len());
        assert(last.tasks().count(task) == first.tasks().add(pushed(events)).count(task));
    }
    assert(last.done =~= pushed(events));
}

/// The runtime is made on first use: booting a system that has no pool makes
/// a fresh one, and booting a system that has one changes nothing.
pub open spec fn boot(system: Option<Pool>, workers: usize) -> Option<Pool> {
    match system {
        Some(_) => system,
        None => Some(Pool::fresh(workers)),
    }
}

/// Initialization is idempotent: after the first boot no other has any
/// effect, whatever size it asks for, so there is one pool, of the size that
/// the first boot gave it.
pub proof fn lemma_boot_is_idempotent(system: Option<Pool>, first: usize, second: usize)
    ensures
        boot(boot(system, first), second) == boot(system, first),
        system is None ==> boot(system, first) == Some(Pool::fresh(first)) && Pool::fresh(
            first,
        ).size() == first,
{
}

} // verus!
