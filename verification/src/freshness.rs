//! The freshness state machine: what the display shows when readings are
//! missing.

use vstd::prelude::*;

verus! {

/// Whether the shown reading is current, out of date, or not yet there.
#[derive(Clone, Copy, Debug, PartialEq, Eq, Structural)]
pub enum FreshnessState {
    /// No valid reading has been seen since startup.
    AwaitingFirst,
    /// The shown reading comes from the latest poll.
    Fresh,
    /// The latest poll failed; the last good reading stays visible.
    Stale,
}

/// What a tick asks of the display.
#[derive(Clone, Copy, Debug, PartialEq, Eq, Structural)]
pub enum DisplayAction {
    /// Nothing was ever shown and there is still nothing to show: the
    /// display stays as it is, waiting for initial data.
    KeepWaiting,
    /// The first good reading: reveal the display and show it.
    Reveal,
    /// Another good reading: clear the stale flag and show it.
    ShowFresh,
    /// The poll failed after data was shown: set the stale flag and keep
    /// the last good reading visible.
    MarkStale,
}

/// Whether the display has shown data in this state.
pub open spec fn has_shown_data(state: FreshnessState) -> bool {
    state != FreshnessState::AwaitingFirst
}

/// The state that follows `state` when a tick sees a poll whose validity is
/// `have_data`.
pub open spec fn next_state(state: FreshnessState, have_data: bool) -> FreshnessState {
    if have_data {
        FreshnessState::Fresh
    } else if has_shown_data(state) {
        FreshnessState::Stale
    } else {
        FreshnessState::AwaitingFirst
    }
}

/// What the display is asked to do on a tick that starts in `state` and
/// sees a poll whose validity is `have_data`.
pub open spec fn action_for(state: FreshnessState, have_data: bool) -> DisplayAction {
    if has_shown_data(state) {
        if have_data {
            DisplayAction::ShowFresh
        } else {
            DisplayAction::MarkStale
        }
    } else {
        if have_data {
            DisplayAction::Reveal
        } else {
            DisplayAction::KeepWaiting
        }
    }
}

impl FreshnessState {
    /// The state at startup.
    pub fn new() -> (state: FreshnessState)
        ensures
            state == FreshnessState::AwaitingFirst,
    {
        FreshnessState::AwaitingFirst
    }

    /// Whether the display has shown data: true in every state but the
    /// first.
    pub fn has_shown_data(self) -> (shown: bool)
        ensures
            shown == has_shown_data(self),
    {
        match self {
            FreshnessState::AwaitingFirst => false,
            _ => true,
        }
    }

    /// Whether the shown reading is out of date.
    pub fn is_stale(self) -> (stale: bool)
        ensures
            stale == (self == FreshnessState::Stale),
    {
        match self {
            FreshnessState::Stale => true,
            _ => false,
        }
    }

    /// The state after a tick that sees a poll whose validity is
    /// `have_data`.
    pub fn advance(self, have_data: bool) -> (next: FreshnessState)
        ensures
            next == next_state(self, have_data),
    {
        if have_data {
            FreshnessState::Fresh
        } else if self.has_shown_data() {
            FreshnessState::Stale
        } else {
            FreshnessState::AwaitingFirst
        }
    }

    /// What the display is asked to do on a tick that starts in this state.
    pub fn action(self, have_data: bool) -> (action: DisplayAction)
        ensures
            action == action_for(self, have_data),
    {
        if self.has_shown_data() {
            if have_data {
                DisplayAction::ShowFresh
            } else {
                DisplayAction::MarkStale
            }
        } else {
            if have_data {
                DisplayAction::Reveal
            } else {
                DisplayAction::KeepWaiting
            }
        }
    }
}

/// A state that has shown data never goes back to waiting, whatever the
/// poll brings; and no state leaves waiting without a valid poll.
pub proof fn lemma_shown_data_is_kept(state: FreshnessState, have_data: bool)
    ensures
        has_shown_data(state) ==> has_shown_data(next_state(state, have_data)),
        has_shown_data(next_state(state, have_data)) ==> has_shown_data(state) || have_data,
        next_state(state, have_data) == FreshnessState::Stale <==> has_shown_data(state)
            && !have_data,
{
}

} // verus!
