//! Where a worker looks for its next task, and in which order.
//!
//! A worker scans its sources by strict priority: its own local queue, then
//! the injector, then the local queues of its peers by index. Each probe of a
//! source answers with an [`Outcome`]; [`advance`] turns that answer into the
//! next move of the scan. The functions here are pure: they decide, and the
//! worker acts.

use vstd::prelude::*;

verus! {

/// How many times in a row a scan probes one source that keeps answering
/// [`Outcome::Retry`] before it gives that source up and goes on.
pub const STEAL_ATTEMPTS: usize = 4;

/// A place where a worker may find a task.
#[derive(Clone, Copy, PartialEq, Eq, Debug, Structural)]
pub enum Source {
    /// The worker's own local queue.
    Local,
    /// The shared entry queue.
    Injector,
    /// The local queue of the worker with this index.
    Peer(usize),
}

/// What a probe of one source answered.
#[derive(Clone, Copy, PartialEq, Eq, Debug, Structural)]
pub enum Outcome {
    /// A task was taken.
    Found,
    /// The source held nothing.
    Empty,
    /// Another thread interfered; the source may still hold tasks.
    Retry,
}

/// The position of a scan: the source to probe next, how often it has been
/// probed in vain in a row, and whether any source so far was given up while
/// it still answered [`Outcome::Retry`].
#[derive(Clone, Copy, PartialEq, Eq, Debug, Structural)]
pub struct Cursor {
    pub source: Source,
    pub attempts: usize,
    pub contended: bool,
}

/// The next move of a scan.
#[derive(Clone, Copy, PartialEq, Eq, Debug, Structural)]
pub enum Verdict {
    /// The probe took a task from this source: run it.
    Claim(Source),
    /// Probe again, at this position.
    Probe(Cursor),
    /// Every source answered [`Outcome::Empty`]: nothing to do.
    Idle,
    /// No task was taken, but some source was given up under contention, so
    /// work may be left.
    Contended,
}

/// Whether the worker `own` of a pool of `peers` workers probes `source` at
/// all: its local queue, the injector, and every peer but itself.
pub open spec fn eligible(source: Source, own: usize, peers: usize) -> bool {
    match source {
        Source::Local => true,
        Source::Injector => true,
        Source::Peer(j) => j < peers && j != own,
    }
}

/// The place of a source in the priority order; lower ranks come first.
pub open spec fn rank(source: Source) -> int {
    match source {
        Source::Local => 0,
        Source::Injector => 1,
        Source::Peer(j) => 2 + j,
    }
}

/// The first peer at or after `from` that `own` may steal from.
pub open spec fn peer_from(from: usize, own: usize, peers: usize) -> Option<usize> {
    if from >= peers {
        None
    } else if from != own {
        Some(from)
    } else if from + 1 < peers {
        Some((from + 1) as usize)
    } else {
        None
    }
}

/// The source that follows `source` in the scan of worker `own`.
pub open spec fn successor(source: Source, own: usize, peers: usize) -> Option<Source> {
    match source {
        Source::Local => Some(Source::Injector),
        Source::Injector => match peer_from(0, own, peers) {
            Some(j) => Some(Source::Peer(j)),
            None => None,
        },
        Source::Peer(j) => if j < peers {
            match peer_from((j + 1) as usize, own, peers) {
                Some(k) => Some(Source::Peer(k)),
                None => None,
            }
        } else {
            None
        },
    }
}

/// Where every scan begins: at the local queue, with nothing tried yet.
pub open spec fn start() -> Cursor {
    Cursor { source: Source::Local, attempts: 0, contended: false }
}

/// The move that follows when the probe at `cursor` answered `outcome`.
///
/// A found task is claimed. A contended probe is repeated until the source has
/// been probed [`STEAL_ATTEMPTS`] times in a row. Otherwise the scan goes on to
/// the next source; past the last one it ends, idle if every source was seen
/// empty and contended if not.
pub open spec fn next_move(cursor: Cursor, outcome: Outcome, own: usize, peers: usize) -> Verdict {
    if outcome == Outcome::Found {
        Verdict::Claim(cursor.source)
    } else if outcome == Outcome::Retry && cursor.attempts + 1 < STEAL_ATTEMPTS {
        Verdict::Probe(
            Cursor {
                source: cursor.source,
                attempts: (cursor.attempts + 1) as usize,
                contended: cursor.contended,
            },
        )
    } else {
        let contended = cursor.contended || outcome == Outcome::Retry;
        match successor(cursor.source, own, peers) {
            Some(next) => Verdict::Probe(Cursor { source: next, attempts: 0, contended }),
            None => if contended {
                Verdict::Contended
            } else {
                Verdict::Idle
            },
        }
    }
}

/// An upper bound on the number of probes that a scan standing at `cursor`
/// can still make.
pub open spec fn budget(cursor: Cursor, peers: usize) -> nat {
    let later: int = match cursor.source {
        Source::Local => peers + 1,
        Source::Injector => peers as int,
        Source::Peer(j) => if j < peers {
            peers - 1 - j
        } else {
            0
        },
    };
    let here: int = if cursor.attempts < STEAL_ATTEMPTS {
        STEAL_ATTEMPTS - cursor.attempts
    } else {
        0
    };
    (later * (STEAL_ATTEMPTS + 1) + here) as nat
}

/// The cursor at which every scan begins.
pub fn begin() -> (cursor: Cursor)
    ensures
        cursor == start(),
{
    Cursor { source: Source::Local, attempts: 0, contended: false }
}

/// The first peer at or after `from` that `own` may steal from, if any.
pub fn first_peer(from: usize, own: usize, peers: usize) -> (peer: Option<usize>)
    ensures
        peer == peer_from(from, own, peers),
{
    if from >= peers {
        None
    } else if from != own {
        Some(from)
    } else if from + 1 < peers {
        Some(from + 1)
    } else {
        None
    }
}

/// The source that worker `own` probes after `source`, or `None` past the
/// last one.
pub fn following(source: Source, own: usize, peers: usize) -> (next: Option<Source>)
    ensures
        next == successor(source, own, peers),
{
    match source {
        Source::Local => Some(Source::Injector),
        Source::Injector => match first_peer(0, own, peers) {
            Some(j) => Some(Source::Peer(j)),
            None => None,
        },
        Source::Peer(j) => {
            if j < peers {
                match first_peer(j + 1, own, peers) {
                    Some(k) => Some(Source::Peer(k)),
                    None => None,
                }
            } else {
                None
            }
        },
    }
}

/// Decides the next move of a scan from the answer of the last probe.
pub fn advance(cursor: Cursor, outcome: Outcome, own: usize, peers: usize) -> (verdict: Verdict)
    ensures
        verdict == next_move(cursor, outcome, own, peers),
{
    match outcome {
        Outcome::Found => Verdict::Claim(cursor.source),
        Outcome::Empty => pass_on(cursor, cursor.contended, own, peers),
        Outcome::Retry => {
            if cursor.attempts < STEAL_ATTEMPTS - 1 {
                Verdict::Probe(
                    Cursor {
                        source: cursor.source,
                        attempts: cursor.attempts + 1,
                        contended: cursor.contended,
                    },
                )
            } else {
                pass_on(cursor, true, own, peers)
            }
        },
    }
}

/// Leaves the source under the cursor for the one that follows it, or ends
/// the scan if none follows.
fn pass_on(cursor: Cursor, contended: bool, own: usize, peers: usize) -> (verdict: Verdict)
    ensures
        verdict == match successor(cursor.source, own, peers) {
            Some(next) => Verdict::Probe(Cursor { source: next, attempts: 0, contended }),
            None => if contended {
                Verdict::Contended
            } else {
                Verdict::Idle
            },
        },
{
    match following(cursor.source, own, peers) {
        Some(next) => Verdict::Probe(Cursor { source: next, attempts: 0, contended }),
        None => {
            if contended {
                Verdict::Contended
            } else {
                Verdict::Idle
            }
        },
    }
}

/// A scan moves forward only: the source that follows is one that the worker
/// may probe, it ranks strictly later, and the scan skips no source in
/// between that the worker may probe.
pub proof fn lemma_successor_is_next(source: Source, own: usize, peers: usize)
    ensures
        match successor(source, own, peers) {
            Some(next) => {
                &&& eligible(next, own, peers)
                &&& rank(source) < rank(next)
                &&& forall|other: Source|
                    rank(source) < rank(other) < rank(next) ==> !eligible(other, own, peers)
            },
            None => forall|other: Source|
                rank(source) < rank(other) ==> !eligible(other, own, peers),
        },
{
}

/// Contention alone cannot hold a scan up: each probe that does not end the
/// scan lowers its budget, so a scan makes at most as many probes as its
/// budget at the start, which the size of the pool bounds.
pub proof fn lemma_scan_is_bounded(cursor: Cursor, outcome: Outcome, own: usize, peers: usize)
    ensures
        next_move(cursor, outcome, own, peers) matches Verdict::Probe(next) ==> budget(
            next,
            peers,
        ) < budget(cursor, peers),
        budget(start(), peers) == (peers + 1) * (STEAL_ATTEMPTS + 1) + STEAL_ATTEMPTS,
{
}

} // verus!
