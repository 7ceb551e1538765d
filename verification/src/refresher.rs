//! The display refresher: on every tick it takes one snapshot, moves the
//! freshness state, and keeps the shown reading and the history.

use vstd::prelude::*;

use crate::freshness::{action_for, has_shown_data, next_state, DisplayAction, FreshnessState};
use crate::history::{newest_first, record_of, History, HistoryRecord, RecordView};
use crate::snapshot::Snapshot;

verus! {

/// What the display shows, as the refresher keeps it.
pub struct DisplayView {
    /// The freshness of the shown reading.
    pub state: FreshnessState,
    /// The reading on display, if one was ever shown.
    pub shown: Option<RecordView>,
    /// Every accepted reading, in arrival order.
    pub accepted: Seq<RecordView>,
}

impl DisplayView {
    /// Whether the display has been revealed.
    pub open spec fn have_data(self) -> bool {
        has_shown_data(self.state)
    }

    /// Whether the shown reading is flagged as out of date.
    pub open spec fn stale_data(self) -> bool {
        self.state == FreshnessState::Stale
    }

    /// The history as the display lists it, the latest reading first.
    pub open spec fn history(self) -> Seq<RecordView> {
        newest_first(self.accepted)
    }

    /// The parts agree: data has been shown exactly when a reading was
    /// accepted, and the shown reading is the last accepted one.
    pub open spec fn consistent(self) -> bool {
        &&& has_shown_data(self.state) <==> self.accepted.len() > 0
        &&& self.shown == if self.accepted.len() > 0 {
            Some(self.accepted.last())
        } else {
            None
        }
    }
}

/// The display at startup: waiting, nothing shown, no history.
pub open spec fn initial_display() -> DisplayView {
    DisplayView { state: FreshnessState::AwaitingFirst, shown: None, accepted: Seq::empty() }
}

/// The display after a tick that read `snapshot`. A valid snapshot becomes
/// the shown reading and the last entry of the history; an invalid one
/// changes the state alone.
pub open spec fn after_tick(before: DisplayView, snapshot: Snapshot) -> DisplayView {
    DisplayView {
        state: next_state(before.state, snapshot.valid),
        shown: if snapshot.valid {
            Some(record_of(snapshot))
        } else {
            before.shown
        },
        accepted: if snapshot.valid {
            before.accepted.push(record_of(snapshot))
        } else {
            before.accepted
        },
    }
}

/// The display after one tick for each of `snapshots`, in order.
pub open spec fn after_ticks(before: DisplayView, snapshots: Seq<Snapshot>) -> DisplayView
    decreases snapshots.len(),
{
    if snapshots.len() == 0 {
        before
    } else {
        after_tick(after_ticks(before, snapshots.drop_last()), snapshots.last())
    }
}

/// The test that picks the valid snapshots.
pub open spec fn is_valid() -> spec_fn(Snapshot) -> bool {
    |snapshot: Snapshot| snapshot.valid
}

/// The map from a snapshot to its record.
pub open spec fn to_record() -> spec_fn(Snapshot) -> RecordView {
    |snapshot: Snapshot| record_of(snapshot)
}

/// The records of the valid snapshots among `snapshots`, in their order.
pub open spec fn accepted_records(snapshots: Seq<Snapshot>) -> Seq<RecordView> {
    snapshots.filter(is_valid()).map_values(to_record())
}

/// Whether any of `snapshots` is valid.
pub open spec fn any_valid(snapshots: Seq<Snapshot>) -> bool {
    exists|i: int| 0 <= i < snapshots.len() && (#[trigger] snapshots[i]).valid
}

/// The periodic consumer of snapshots and the only writer of what the
/// display shows.
pub struct DisplayRefresher {
    state: FreshnessState,
    shown: Option<HistoryRecord>,
    history: History,
}

impl View for DisplayRefresher {
    type V = DisplayView;

    closed spec fn view(&self) -> DisplayView {
        DisplayView {
            state: self.state,
            shown: match self.shown {
                Some(record) => Some(record@),
                None => None,
            },
            accepted: self.history@,
        }
    }
}

impl DisplayRefresher {
    /// A refresher at startup.
    pub fn new() -> (refresher: DisplayRefresher)
        ensures
            refresher@ == initial_display(),
            refresher@.consistent(),
    {
        DisplayRefresher { state: FreshnessState::new(), shown: None, history: History::new() }
    }

    /// One tick: takes the snapshot read for it, moves the freshness state,
    /// and, if the snapshot is valid, makes its record the shown reading
    /// and appends it to the history. Returns what the display is to do.
    pub fn tick(&mut self, snapshot: &Snapshot) -> (action: DisplayAction)
        ensures
            final(self)@ == after_tick(old(self)@, *snapshot),
            old(self)@.consistent() ==> final(self)@.consistent(),
            action == action_for(old(self)@.state, snapshot.valid),
    {
        let action = self.state.action(snapshot.valid);
        self.state = self.state.advance(snapshot.valid);
        if snapshot.valid {
            let record = HistoryRecord::from_snapshot(snapshot);
            self.shown = Some(record.clone());
            self.history.append(record);
        }
        action
    }

    /// The freshness of the shown reading.
    pub fn state(&self) -> (state: FreshnessState)
        ensures
            state == self@.state,
    {
        self.state
    }

    /// Whether the display has been revealed: true from the first valid
    /// reading on.
    pub fn have_data(&self) -> (have_data: bool)
        ensures
            have_data == self@.have_data(),
    {
        self.state.has_shown_data()
    }

    /// Whether the shown reading is out of date.
    pub fn stale_data(&self) -> (stale: bool)
        ensures
            stale == self@.stale_data(),
    {
        self.state.is_stale()
    }

    /// The reading on display: the last accepted one, or nothing before
    /// the first.
    pub fn shown(&self) -> (shown: Option<&HistoryRecord>)
        ensures
            match shown {
                Some(record) => Some(record@) == self@.shown,
                None => self@.shown.is_none(),
            },
    {
        self.shown.as_ref()
    }

    /// The history of accepted readings.
    pub fn history(&self) -> (history: &History)
        ensures
            history@ == self@.accepted,
    {
        &self.history
    }
}

/// The history holds exactly the valid snapshots: after any run of ticks,
/// the accepted records are those that were there before, followed by the
/// records of the valid snapshots of the run, in arrival order; and the
/// newest-first listing is the reverse of that sequence.
pub proof fn lemma_history_is_valid_subsequence(before: DisplayView, snapshots: Seq<Snapshot>)
    ensures
        after_ticks(before, snapshots).accepted == before.accepted + accepted_records(snapshots),
        after_ticks(before, snapshots).history() == (before.accepted + accepted_records(
            snapshots,
        )).reverse(),
    decreases snapshots.len(),
{
    if snapshots.len() == 0 {
        assert(accepted_records(snapshots) =~= Seq::<RecordView>::empty()) by {
            reveal(Seq::filter);
        }
        assert(before.accepted + accepted_records(snapshots) =~= before.accepted);
    } else {
        let earlier = snapshots.drop_last();
        let last = snapshots.last();
        lemma_history_is_valid_subsequence(before, earlier);
        assert(snapshots =~= earlier.push(last));
        earlier.lemma_filter_push(last, is_valid());
        if last.valid {
            assert(accepted_records(snapshots) =~= accepted_records(earlier).push(
                record_of(last),
            ));
        }
        assert(after_ticks(before, snapshots).accepted =~= before.accepted + accepted_records(
            snapshots,
        ));
    }
}

/// From startup, the history is the sequence of valid snapshots and
/// nothing else.
pub proof fn lemma_history_from_startup(snapshots: Seq<Snapshot>)
    ensures
        after_ticks(initial_display(), snapshots).accepted == accepted_records(snapshots),
        after_ticks(initial_display(), snapshots).history() == accepted_records(
            snapshots,
        ).reverse(),
{
    lemma_history_is_valid_subsequence(initial_display(), snapshots);
    assert(initial_display().accepted + accepted_records(snapshots) =~= accepted_records(
        snapshots,
    ));
}

/// The display has shown data after a run of ticks exactly when it had
/// before or one of the snapshots was valid. From startup the state is
/// therefore `AwaitingFirst` until the first valid snapshot, and never
/// again after it.
pub proof fn lemma_awaiting_until_first_valid(before: DisplayView, snapshots: Seq<Snapshot>)
    ensures
        after_ticks(before, snapshots).have_data() <==> before.have_data() || any_valid(
            snapshots,
        ),
        after_ticks(initial_display(), snapshots).state == FreshnessState::AwaitingFirst
            <==> !any_valid(snapshots),
{
    lemma_shown_data_since(before, snapshots);
    lemma_shown_data_since(initial_display(), snapshots);
}

/// Data has been shown after a run exactly when it had been before or the
/// run holds a valid snapshot.
proof fn lemma_shown_data_since(before: DisplayView, snapshots: Seq<Snapshot>)
    ensures
        after_ticks(before, snapshots).have_data() <==> before.have_data() || any_valid(
            snapshots,
        ),
    decreases snapshots.len(),
{
    if snapshots.len() > 0 {
        let earlier = snapshots.drop_last();
        let last = snapshots.last();
        lemma_shown_data_since(before, earlier);
        if any_valid(earlier) {
            let i = choose|i: int| 0 <= i < earlier.len() && (#[trigger] earlier[i]).valid;
            assert(snapshots[i].valid);
        }
        if last.valid {
            assert(snapshots[snapshots.len() - 1].valid);
        }
        if any_valid(snapshots) {
            let i = choose|i: int| 0 <= i < snapshots.len() && (#[trigger] snapshots[i]).valid;
            if i < earlier.len() {
                assert(earlier[i].valid);
            }
        }
    }
}

/// Once data has been shown it stays shown: no run of ticks takes the
/// display back to waiting or removes the shown reading. After a run that
/// is not empty the stale flag is set exactly when the last snapshot was
/// invalid, and the shown reading is that of the last valid snapshot.
pub proof fn lemma_shown_data_never_reverts(before: DisplayView, snapshots: Seq<Snapshot>)
    requires
        before.consistent(),
        before.have_data(),
    ensures
        after_ticks(before, snapshots).have_data(),
        after_ticks(before, snapshots).shown.is_some(),
        snapshots.len() > 0 ==> (after_ticks(before, snapshots).stale_data()
            <==> !snapshots.last().valid),
        snapshots.len() > 0 && !snapshots.last().valid ==> after_ticks(before, snapshots).shown
            == after_ticks(before, snapshots.drop_last()).shown,
    decreases snapshots.len(),
{
    if snapshots.len() > 0 {
        lemma_shown_data_never_reverts(before, snapshots.drop_last());
    }
}

/// The parts of the display stay in agreement over any run of ticks: data
/// has been shown exactly when the history is not empty, and the shown
/// reading is the newest entry of the history.
pub proof fn lemma_consistency_is_kept(before: DisplayView, snapshots: Seq<Snapshot>)
    requires
        before.consistent(),
    ensures
        after_ticks(before, snapshots).consistent(),
        after_ticks(initial_display(), snapshots).consistent(),
    decreases snapshots.len(),
{
    if snapshots.len() > 0 {
        lemma_consistency_is_kept(before, snapshots.drop_last());
    }
}

} // verus!
