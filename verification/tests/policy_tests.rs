use rs_routine::policy::{
    advance, begin, first_peer, following, Cursor, Outcome, Source, Verdict, STEAL_ATTEMPTS,
};

fn at(source: Source) -> Cursor {
    Cursor { source, attempts: 0, contended: false }
}

/// Runs a whole scan for worker `own` of `peers` on the given answers, one
/// for each probe, and returns the sources probed and how the scan ended.
fn run(own: usize, peers: usize, answers: &[Outcome]) -> (Vec<Source>, Verdict) {
    let mut cursor = begin();
    let mut probed = Vec::new();
    for answer in answers {
        probed.push(cursor.source);
        match advance(cursor, *answer, own, peers) {
            Verdict::Probe(next) => cursor = next,
            end => return (probed, end),
        }
    }
    (probed, Verdict::Probe(cursor))
}

#[test]
fn a_found_task_is_claimed_from_the_source_probed() {
    for source in [Source::Local, Source::Injector, Source::Peer(1)] {
        assert_eq!(advance(at(source), Outcome::Found, 0, 3), Verdict::Claim(source));
    }
}

#[test]
fn the_injector_follows_the_local_queue() {
    assert_eq!(
        advance(at(Source::Local), Outcome::Empty, 0, 3),
        Verdict::Probe(at(Source::Injector))
    );
    assert_eq!(following(Source::Local, 2, 3), Some(Source::Injector));
}

#[test]
fn peers_follow_the_injector_in_index_order_without_the_worker_itself() {
    assert_eq!(following(Source::Injector, 0, 3), Some(Source::Peer(1)));
    assert_eq!(following(Source::Injector, 1, 3), Some(Source::Peer(0)));
    assert_eq!(following(Source::Peer(0), 1, 3), Some(Source::Peer(2)));
    assert_eq!(following(Source::Peer(1), 0, 3), Some(Source::Peer(2)));
    assert_eq!(following(Source::Peer(2), 0, 3), None);
    assert_eq!(following(Source::Peer(1), 2, 3), None);
    assert_eq!(following(Source::Injector, 0, 1), None);
    assert_eq!(following(Source::Peer(7), 0, 3), None);
    assert_eq!(following(Source::Peer(usize::MAX), 0, usize::MAX), None);
}

#[test]
fn first_peer_skips_the_worker_itself() {
    assert_eq!(first_peer(0, 0, 1), None);
    assert_eq!(first_peer(0, 0, 2), Some(1));
    assert_eq!(first_peer(0, 1, 2), Some(0));
    assert_eq!(first_peer(1, 1, 2), None);
    assert_eq!(first_peer(2, 0, 2), None);
    assert_eq!(first_peer(3, 3, 5), Some(4));
}

#[test]
fn a_quiet_scan_probes_every_source_once_and_ends_idle() {
    let (probed, end) = run(1, 4, &[Outcome::Empty; 5]);
    assert_eq!(
        probed,
        vec![Source::Local, Source::Injector, Source::Peer(0), Source::Peer(2), Source::Peer(3)]
    );
    assert_eq!(end, Verdict::Idle);
}

#[test]
fn a_scan_stops_at_the_first_task() {
    let (probed, end) = run(0, 3, &[Outcome::Empty, Outcome::Empty, Outcome::Found, Outcome::Found]);
    assert_eq!(probed, vec![Source::Local, Source::Injector, Source::Peer(1)]);
    assert_eq!(end, Verdict::Claim(Source::Peer(1)));
}

#[test]
fn a_contended_source_is_probed_a_fixed_number_of_times() {
    assert_eq!(STEAL_ATTEMPTS, 4);
    let (probed, end) = run(0, 1, &[
        Outcome::Empty,
        Outcome::Retry,
        Outcome::Retry,
        Outcome::Retry,
        Outcome::Retry,
    ]);
    assert_eq!(
        probed,
        vec![Source::Local, Source::Injector, Source::Injector, Source::Injector, Source::Injector]
    );
    assert_eq!(end, Verdict::Contended);
}

#[test]
fn a_retry_that_succeeds_claims_the_task() {
    let (probed, end) = run(0, 1, &[Outcome::Empty, Outcome::Retry, Outcome::Found]);
    assert_eq!(probed, vec![Source::Local, Source::Injector, Source::Injector]);
    assert_eq!(end, Verdict::Claim(Source::Injector));
}

#[test]
fn a_retry_that_finds_the_source_empty_leaves_the_scan_idle() {
    let (_, end) = run(0, 1, &[Outcome::Empty, Outcome::Retry, Outcome::Empty]);
    assert_eq!(end, Verdict::Idle);
}

#[test]
fn contention_on_one_source_is_remembered_to_the_end_of_the_scan() {
    let answers = [
        Outcome::Empty,
        Outcome::Retry,
        Outcome::Retry,
        Outcome::Retry,
        Outcome::Retry,
        Outcome::Empty,
    ];
    let (probed, end) = run(0, 2, &answers);
    assert_eq!(probed.last(), Some(&Source::Peer(1)));
    assert_eq!(end, Verdict::Contended);
}

#[test]
fn the_count_of_attempts_starts_again_at_each_source() {
    let stuck = Cursor { source: Source::Injector, attempts: 3, contended: false };
    assert_eq!(
        advance(stuck, Outcome::Retry, 0, 2),
        Verdict::Probe(Cursor { source: Source::Peer(1), attempts: 0, contended: true })
    );
    let once = Cursor { source: Source::Injector, attempts: 1, contended: false };
    assert_eq!(
        advance(once, Outcome::Retry, 0, 2),
        Verdict::Probe(Cursor { source: Source::Injector, attempts: 2, contended: false })
    );
}

#[test]
fn no_scan_is_longer_than_its_budget() {
    for peers in 1..6usize {
        for own in 0..peers {
            let answers = vec![Outcome::Retry; 1000];
            let (probed, end) = run(own, peers, &answers);
            assert_eq!(end, Verdict::Contended);
            assert_eq!(probed.len(), (peers + 1) * STEAL_ATTEMPTS);
            assert!(probed.len() <= (peers + 1) * (STEAL_ATTEMPTS + 1) + STEAL_ATTEMPTS);
        }
    }
}

#[test]
fn a_scan_begins_at_the_local_queue() {
    assert_eq!(begin(), Cursor { source: Source::Local, attempts: 0, contended: false });
}
