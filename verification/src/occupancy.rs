//! The occupancy state machine that both guarded locks follow.
//!
//! A lock's observable occupancy is how many shared and exclusive holders it
//! has at an instant. Acquisitions and releases move the occupancy between
//! three shapes — free, some shared holders, one exclusive holder — and this
//! module states those transitions once, as spec functions, together with the
//! proof that every sequence of events keeps the occupancy well formed. The
//! lock types tie each of their operations to [`step`] in their contracts.

use vstd::prelude::*;

verus! {

/// How many shared and exclusive holders a lock has at one instant.
///
/// In every reachable occupancy, `writers` is 0 or 1, and a writer excludes
/// all readers. The exclusive lock is the special case whose `readers` stays
/// 0 forever.
pub struct Occupancy {
    pub readers: nat,
    pub writers: nat,
}

/// One acquisition or release observed at a lock.
pub enum LockEvent {
    AcquireShared,
    ReleaseShared,
    AcquireExclusive,
    ReleaseExclusive,
}

/// The well-formedness every reachable occupancy satisfies: at most one
/// exclusive holder, and an exclusive holder excludes all shared holders.
pub open spec fn occupancy_invariant(o: Occupancy) -> bool {
    o.writers <= 1 && (o.writers > 0 ==> o.readers == 0)
}

/// Whether event `e` is granted in occupancy `o`: shared access whenever no
/// exclusive holder exists, exclusive access only when the lock is entirely
/// free, and a release whenever a matching holder exists.
pub open spec fn granted(o: Occupancy, e: LockEvent) -> bool {
    match e {
        LockEvent::AcquireShared => o.writers == 0,
        LockEvent::ReleaseShared => o.readers > 0,
        LockEvent::AcquireExclusive => o.writers == 0 && o.readers == 0,
        LockEvent::ReleaseExclusive => o.writers > 0,
    }
}

/// The occupancy after event `e`: a granted acquisition adds a holder, a
/// granted release removes one, and a refused event leaves the occupancy
/// exactly as it was.
pub open spec fn step(o: Occupancy, e: LockEvent) -> Occupancy {
    if granted(o, e) {
        match e {
            LockEvent::AcquireShared => Occupancy { readers: o.readers + 1, writers: o.writers },
            LockEvent::ReleaseShared => Occupancy {
                readers: (o.readers - 1) as nat,
                writers: o.writers,
            },
            LockEvent::AcquireExclusive => Occupancy {
                readers: o.readers,
                writers: o.writers + 1,
            },
            LockEvent::ReleaseExclusive => Occupancy {
                readers: o.readers,
                writers: (o.writers - 1) as nat,
            },
        }
    } else {
        o
    }
}

/// The occupancy reached from `o` by a whole sequence of events, applied in
/// order.
pub open spec fn run_events(o: Occupancy, events: Seq<LockEvent>) -> Occupancy
    decreases events.len(),
{
    if events.len() == 0 {
        o
    } else {
        step(run_events(o, events.drop_last()), events.last())
    }
}

/// A single event preserves the occupancy well-formedness.
pub proof fn lemma_step_preserves_invariant(o: Occupancy, e: LockEvent)
    requires
        occupancy_invariant(o),
    ensures
        occupancy_invariant(step(o, e)),
{
}

/// For every sequence of acquisitions and releases, the occupancy stays well
/// formed: at any instant there is at most one exclusive holder, and any
/// number of shared holders only while no exclusive holder exists.
pub proof fn lemma_event_sequences_keep_invariant(o: Occupancy, events: Seq<LockEvent>)
    requires
        occupancy_invariant(o),
    ensures
        occupancy_invariant(run_events(o, events)),
    decreases events.len(),
{
    if events.len() > 0 {
        lemma_event_sequences_keep_invariant(o, events.drop_last());
        lemma_step_preserves_invariant(run_events(o, events.drop_last()), events.last());
    }
}

/// Holders are shared XOR exclusive: exclusive access is granted only from
/// the entirely free occupancy, shared access never alongside an exclusive
/// holder, and no well-formed occupancy mixes the two.
pub proof fn lemma_exclusive_excludes_shared(o: Occupancy)
    requires
        occupancy_invariant(o),
    ensures
        granted(o, LockEvent::AcquireExclusive) ==> o == (Occupancy { readers: 0, writers: 0 }),
        granted(o, LockEvent::AcquireShared) ==> o.writers == 0,
        !(o.readers > 0 && o.writers > 0),
{
}

} // verus!
