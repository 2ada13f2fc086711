use once_cell::sync::OnceCell;
use rs_routine::policy::Source;
use rs_routine::scheduler::{assemble, init_runtime, settle, spawn};
use rs_routine::worker::{turn_after, Scan, Turn};
use rs_routine::{go, init, Runtime, Task, WorkerContext};
use std::sync::mpsc;

/// Lets the workers take turns on the calling thread until none of them
/// finds a task any more, and returns how many tasks were run.
fn drain(crew: &[WorkerContext]) -> usize {
    let mut ran = 0;
    loop {
        let mut progress = false;
        for worker in crew {
            match worker.scan() {
                Scan::Found(task, _) => {
                    (task.job)();
                    ran += 1;
                    progress = true;
                }
                Scan::Contended => progress = true,
                Scan::Idle => {}
            }
        }
        if !progress {
            return ran;
        }
    }
}

fn sender(tx: &mpsc::Sender<usize>, value: usize) -> Task {
    let tx = tx.clone();
    Task { job: Box::new(move || tx.send(value).unwrap()) }
}

#[test]
fn internal_spawn_test() {
    let cell: OnceCell<Runtime> = OnceCell::new();
    let (_, crew) = init_runtime(&cell);
    let (tx, rx) = std::sync::mpsc::channel();
    let rest = spawn(&cell, Task { job: Box::new(move || tx.send(99).unwrap()) });
    assert!(rest.is_empty());
    let task = crew[0].next_task().unwrap();
    (task.job)();
    let val = rx.recv_timeout(std::time::Duration::from_secs(1)).unwrap();
    assert_eq!(val, 99);
}

#[test]
fn smoke_test() {
    let cell: OnceCell<Runtime> = OnceCell::new();
    let crew = init(&cell);

    let (tx, rx) = mpsc::channel();
    for i in 0..10 {
        let tx = tx.clone();
        let more = go(&cell, move || {
            tx.send(i).unwrap();
        });
        assert!(more.is_empty());
    }

    assert_eq!(drain(&crew), 10);

    let mut results: Vec<_> = rx.try_iter().collect();
    results.sort();
    assert_eq!(results, (0..10).collect::<Vec<_>>());
}

#[test]
fn a_lone_worker_finds_every_spawned_task_in_the_injector() {
    let (runtime, crew) = assemble(1);
    let (tx, rx) = mpsc::channel();
    for i in 0..3 {
        runtime.submit(sender(&tx, i));
    }
    for _ in 0..3 {
        match crew[0].scan() {
            Scan::Found(task, source) => {
                assert_eq!(source, Source::Injector);
                (task.job)();
            }
            _ => panic!("a spawned task was waiting"),
        }
    }
    assert!(matches!(crew[0].scan(), Scan::Idle));
    let mut seen: Vec<usize> = rx.try_iter().collect();
    seen.sort();
    assert_eq!(seen, vec![0, 1, 2]);
}

#[test]
fn a_scan_of_empty_queues_is_idle() {
    let (_, crew) = assemble(4);
    for worker in &crew {
        assert!(matches!(worker.scan(), Scan::Idle));
    }
}

#[test]
fn a_task_is_not_run_before_a_worker_claims_it() {
    let (runtime, crew) = assemble(2);
    let (tx, rx) = mpsc::channel();
    runtime.submit(sender(&tx, 7));
    assert!(rx.try_recv().is_err());
    assert_eq!(drain(&crew), 1);
    assert_eq!(rx.try_recv().unwrap(), 7);
    assert!(rx.try_recv().is_err());
}

#[test]
fn every_task_runs_exactly_once() {
    let (runtime, crew) = assemble(3);
    let (tx, rx) = mpsc::channel();
    for i in 0..1000 {
        runtime.submit(sender(&tx, i));
    }
    assert_eq!(drain(&crew), 1000);
    assert_eq!(drain(&crew), 0);
    let mut seen: Vec<usize> = rx.try_iter().collect();
    seen.sort();
    assert_eq!(seen, (0..1000).collect::<Vec<_>>());
}

#[test]
fn any_worker_of_the_pool_can_take_a_spawned_task() {
    let (runtime, crew) = assemble(3);
    let (tx, rx) = mpsc::channel();
    for i in 0..3 {
        runtime.submit(sender(&tx, i));
    }
    for worker in crew.iter().rev() {
        match worker.scan() {
            Scan::Found(task, source) => {
                assert_eq!(source, Source::Injector);
                (task.job)();
            }
            _ => panic!("a spawned task was waiting"),
        }
    }
    let mut seen: Vec<usize> = rx.try_iter().collect();
    seen.sort();
    assert_eq!(seen, vec![0, 1, 2]);
}

#[test]
fn assemble_makes_the_pool_it_was_asked_for() {
    let (runtime, crew) = assemble(5);
    assert_eq!(runtime.worker_count(), 5);
    assert_eq!(crew.len(), 5);
    for (i, worker) in crew.iter().enumerate() {
        assert_eq!(worker.index(), i);
        assert_eq!(worker.pool_size(), 5);
    }
}

#[test]
fn the_first_init_makes_one_worker_for_each_processor() {
    let cell: OnceCell<Runtime> = OnceCell::new();
    assert!(cell.get().is_none());
    let (runtime, crew) = init_runtime(&cell);
    assert!(runtime.worker_count() >= 1);
    assert_eq!(runtime.worker_count(), num_cpus::get());
    assert_eq!(crew.len(), runtime.worker_count());
    assert!(cell.get().is_some());
}

#[test]
fn init_is_idempotent() {
    let cell: OnceCell<Runtime> = OnceCell::new();
    let first = init(&cell);
    assert_eq!(first.len(), num_cpus::get());
    let count = cell.get().unwrap().worker_count();
    for _ in 0..5 {
        assert!(init(&cell).is_empty());
        let (runtime, crew) = init_runtime(&cell);
        assert!(crew.is_empty());
        assert_eq!(runtime.worker_count(), count);
    }
}

#[test]
fn the_first_go_makes_the_runtime() {
    let cell: OnceCell<Runtime> = OnceCell::new();
    let (tx, rx) = mpsc::channel();
    let crew = go(&cell, move || tx.send(1).unwrap());
    assert_eq!(crew.len(), num_cpus::get());
    assert!(init(&cell).is_empty());
    assert_eq!(drain(&crew), 1);
    assert_eq!(rx.try_recv().unwrap(), 1);
}

#[test]
fn a_task_spawned_into_a_full_cell_reaches_the_pool_that_was_started() {
    let cell: OnceCell<Runtime> = OnceCell::new();
    let crew = init(&cell);
    let (tx, rx) = mpsc::channel();
    assert!(spawn(&cell, sender(&tx, 5)).is_empty());
    assert_eq!(drain(&crew), 1);
    assert_eq!(rx.try_recv().unwrap(), 5);
}

#[test]
fn settle_keeps_the_workers_of_the_runtime_that_was_installed() {
    let cell: OnceCell<Runtime> = OnceCell::new();
    let (runtime, crew) = assemble(2);
    let (kept, start) = settle(cell.try_insert(runtime), crew);
    assert_eq!(kept.worker_count(), 2);
    assert_eq!(start.len(), 2);
    assert_eq!(start[1].index(), 1);
}

#[test]
fn settle_drops_the_workers_of_a_runtime_that_came_too_late() {
    let cell: OnceCell<Runtime> = OnceCell::new();
    let (first, _) = assemble(2);
    assert!(cell.set(first).is_ok());
    let (second, crew) = assemble(3);
    let (kept, start) = settle(cell.try_insert(second), crew);
    assert_eq!(kept.worker_count(), 2);
    assert!(start.is_empty());
}

#[test]
fn a_signal_without_a_sleeper_is_dropped() {
    let (runtime, crew) = assemble(1);
    let (tx, rx) = mpsc::channel();
    runtime.submit(sender(&tx, 1));
    runtime.submit(sender(&tx, 2));
    let first = crew[0].next_task().unwrap();
    let second = crew[0].next_task().unwrap();
    (second.job)();
    (first.job)();
    let mut seen: Vec<usize> = rx.try_iter().collect();
    seen.sort();
    assert_eq!(seen, vec![1, 2]);
    assert!(matches!(crew[0].scan(), Scan::Idle));
}

#[test]
fn a_thousand_tasks_from_four_callers_all_complete_on_one_worker() {
    let (runtime, crew) = assemble(1);
    let (tx, rx) = mpsc::channel();
    for round in 0..250 {
        for caller in 0..4 {
            runtime.submit(sender(&tx, caller * 250 + round));
        }
    }
    let mut ran = 0;
    while let Scan::Found(task, _) = crew[0].scan() {
        (task.job)();
        ran += 1;
    }
    assert_eq!(ran, 1000);
    let mut seen: Vec<usize> = rx.try_iter().collect();
    seen.sort();
    assert_eq!(seen, (0..1000).collect::<Vec<_>>());
}

#[test]
fn a_task_that_spawns_reaches_the_same_pool() {
    let cell: &'static OnceCell<Runtime> = Box::leak(Box::new(OnceCell::new()));
    let crew = init(cell);
    let (tx, rx) = mpsc::channel();
    let more = go(cell, move || {
        let inner = tx.clone();
        let extra = go(cell, move || inner.send(2).unwrap());
        assert!(extra.is_empty());
        tx.send(1).unwrap();
    });
    assert!(more.is_empty());
    assert_eq!(drain(&crew), 2);
    let mut seen: Vec<usize> = rx.try_iter().collect();
    seen.sort();
    assert_eq!(seen, vec![1, 2]);
}

#[test]
fn a_found_task_is_run_locked_or_not() {
    let (tx, rx) = mpsc::channel();
    for (value, locked) in [(3, false), (4, true)] {
        match turn_after(Scan::Found(sender(&tx, value), Source::Injector), locked) {
            Turn::Run(task) => (task.job)(),
            _ => panic!("a found task is run"),
        }
        assert_eq!(rx.try_recv().unwrap(), value);
    }
}

#[test]
fn a_worker_sleeps_only_after_an_idle_scan_under_the_lock() {
    assert!(matches!(turn_after(Scan::Idle, true), Turn::Sleep));
    assert!(matches!(turn_after(Scan::Idle, false), Turn::Recheck));
    assert!(matches!(turn_after(Scan::Contended, true), Turn::Again));
    assert!(matches!(turn_after(Scan::Contended, false), Turn::Again));
}

#[test]
fn every_caller_is_handed_the_runtime_that_the_cell_keeps() {
    let cell: OnceCell<Runtime> = OnceCell::new();
    let (first, crew) = init_runtime(&cell);
    assert_eq!(crew.len(), first.worker_count());
    let (second, none) = init_runtime(&cell);
    assert!(none.is_empty());
    assert!(std::ptr::eq(first, second));
    assert!(std::ptr::eq(first, cell.get().unwrap()));
}

#[test]
fn a_runtime_that_the_cell_holds_already_is_the_one_used() {
    let cell: OnceCell<Runtime> = OnceCell::new();
    let (made, crew) = assemble(2);
    assert!(cell.set(made).is_ok());
    let (found, none) = init_runtime(&cell);
    assert!(none.is_empty());
    assert_eq!(found.worker_count(), 2);
    assert!(std::ptr::eq(found, cell.get().unwrap()));
    let (tx, rx) = mpsc::channel();
    assert!(spawn(&cell, sender(&tx, 11)).is_empty());
    assert_eq!(drain(&crew), 1);
    assert_eq!(rx.try_recv().unwrap(), 11);
}

#[test]
fn go_and_init_leave_a_runtime_in_the_cell() {
    let by_go: OnceCell<Runtime> = OnceCell::new();
    let crew = go(&by_go, || {});
    assert_eq!(crew.len(), by_go.get().unwrap().worker_count());
    let by_init: OnceCell<Runtime> = OnceCell::new();
    let crew = init(&by_init);
    assert_eq!(crew.len(), by_init.get().unwrap().worker_count());
    let by_spawn: OnceCell<Runtime> = OnceCell::new();
    let crew = spawn(&by_spawn, Task { job: Box::new(|| {}) });
    assert_eq!(crew.len(), by_spawn.get().unwrap().worker_count());
}
