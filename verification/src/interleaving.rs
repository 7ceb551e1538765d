//! Interleavings of the sampler's stores with the refresher's loads, played
//! out on a plain snapshot.
//!
//! Each field of the shared snapshot is a cell of its own. For one cell,
//! loads and stores made with any memory ordering take effect in one
//! order that every context agrees on, so what the refresher sees of the
//! timestamp is what it would see if its loads fell somewhere between the
//! sampler's stores, one after another. That is the run modelled here.

use vstd::prelude::*;

use crate::snapshot::{stored, FieldStore, Snapshot};

verus! {

/// One step of an interleaved run.
#[derive(Clone, Copy, Debug, PartialEq, Eq, Structural)]
pub enum Event {
    /// The sampler stores to a field.
    Store(FieldStore),
    /// The refresher loads the timestamp.
    LoadTimestamp,
}

/// The snapshot after a run of events. Loads leave it as it is.
pub open spec fn snapshot_after(start: Snapshot, events: Seq<Event>) -> Snapshot
    decreases events.len(),
{
    if events.len() == 0 {
        start
    } else {
        let before = snapshot_after(start, events.drop_last());
        match events.last() {
            Event::Store(store) => stored(before, store),
            Event::LoadTimestamp => before,
        }
    }
}

/// The timestamps that the loads of a run return, in the order of the
/// loads: each is the timestamp that the stores before it left.
pub open spec fn timestamps_seen(start: Snapshot, events: Seq<Event>) -> Seq<i64>
    decreases events.len(),
{
    if events.len() == 0 {
        Seq::empty()
    } else {
        let earlier = timestamps_seen(start, events.drop_last());
        match events.last() {
            Event::Store(_) => earlier,
            Event::LoadTimestamp => earlier.push(
                snapshot_after(start, events.drop_last()).timestamp,
            ),
        }
    }
}

/// The timestamps that the run stores, in order.
pub open spec fn timestamps_stored(events: Seq<Event>) -> Seq<i64>
    decreases events.len(),
{
    if events.len() == 0 {
        Seq::empty()
    } else {
        let earlier = timestamps_stored(events.drop_last());
        match events.last() {
            Event::Store(FieldStore::Timestamp(timestamp)) => earlier.push(timestamp),
            _ => earlier,
        }
    }
}

/// No value is smaller than one before it.
pub open spec fn never_decreases(values: Seq<i64>) -> bool {
    forall|i: int, j: int| 0 <= i <= j < values.len() ==> values[i] <= values[j]
}

/// The timestamps that the sampler's clock gives over a run: the one the
/// snapshot starts with, then each one stored.
pub open spec fn clock_readings(start: Snapshot, events: Seq<Event>) -> Seq<i64> {
    seq![start.timestamp] + timestamps_stored(events)
}

/// Plays a run of events on `snapshot` and returns the timestamps that its
/// loads see.
pub fn observe(snapshot: &mut Snapshot, events: &Vec<Event>) -> (seen: Vec<i64>)
    ensures
        *final(snapshot) == snapshot_after(*old(snapshot), events@),
        seen@ == timestamps_seen(*old(snapshot), events@),
{
    let mut seen: Vec<i64> = Vec::new();
    let mut index: usize = 0;
    while index < events.len()
        invariant
            index <= events.len(),
            *snapshot == snapshot_after(*old(snapshot), events@.take(index as int)),
            seen@ == timestamps_seen(*old(snapshot), events@.take(index as int)),
        decreases events.len() - index,
    {
        proof {
            assert(events@.take(index + 1).drop_last() =~= events@.take(index as int));
        }
        match events[index] {
            Event::Store(store) => {
                snapshot.store(store);
            },
            Event::LoadTimestamp => {
                seen.push(snapshot.timestamp);
            },
        }
        index = index + 1;
    }
    proof {
        assert(events@.take(index as int) =~= events@);
    }
    seen
}

/// Under a clock that never goes back, the snapshot holds the latest clock
/// reading, and no load has seen a later one.
proof fn lemma_seen_up_to_now(start: Snapshot, events: Seq<Event>)
    requires
        never_decreases(clock_readings(start, events)),
    ensures
        snapshot_after(start, events).timestamp == clock_readings(start, events).last(),
        never_decreases(timestamps_seen(start, events)),
        forall|k: int|
            0 <= k < timestamps_seen(start, events).len() ==> #[trigger] timestamps_seen(
                start,
                events,
            )[k] <= snapshot_after(start, events).timestamp,
    decreases events.len(),
{
    if events.len() > 0 {
        let earlier = events.drop_last();
        let all = clock_readings(start, events);
        let most = clock_readings(start, earlier);
        assert(never_decreases(most)) by {
            assert forall|i: int, j: int| 0 <= i <= j < most.len() implies most[i] <= most[j] by {
                assert(all[i] <= all[j]);
            }
        }
        lemma_seen_up_to_now(start, earlier);
        assert(all[most.len() - 1] <= all[all.len() - 1]);
    }
}

/// The refresher never sees the timestamp go back: in any interleaving of
/// its loads with the sampler's stores, the loaded timestamps never
/// decrease, provided the clock that the sampler stores from does not.
pub proof fn lemma_seen_timestamps_never_decrease(start: Snapshot, events: Seq<Event>)
    requires
        never_decreases(clock_readings(start, events)),
    ensures
        never_decreases(timestamps_seen(start, events)),
{
    lemma_seen_up_to_now(start, events);
}

} // verus!
