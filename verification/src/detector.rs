//! Detection end to end: from what the process query printed to the game it
//! shows, and the tracker that polls it.

use crate::profile::{detect_game, matched_game, profile_views, GameProfile, GameProfileView};
use crate::snapshot::{captured_names, get_processes};
use crate::tracker::{GameView, TrackerModel, TrackerState, TrackerUpdate};
use vstd::prelude::*;

verus! {

/// The game that a process query shows to be running under `profiles`.
pub open spec fn detected_game(output: Option<&[u8]>, profiles: Seq<GameProfileView>) -> GameView {
    matched_game(captured_names(output), profiles)
}

/// Detects the running game right now, without debouncing: the host asks for
/// this once at startup, before the tracker has announced anything. `output`
/// is what the process query printed, `None` when it failed.
pub fn check_initial_game_state(output: Option<&[u8]>, profiles: &Vec<GameProfile>) -> (game:
    Option<String>)
    ensures
        game.deep_view() == detected_game(output, profile_views(profiles@)),
{
    let snapshot = get_processes(output);
    detect_game(&snapshot, profiles)
}

/// The debounced tracker: a profile table and the tracker state, advanced
/// one poll tick at a time by the loop that owns it.
pub struct DebouncedTracker {
    profiles: Vec<GameProfile>,
    state: TrackerState,
}

impl DebouncedTracker {
    /// The profile table the tracker matches against.
    pub closed spec fn profiles(&self) -> Seq<GameProfileView> {
        profile_views(self.profiles@)
    }

    /// The tracker state.
    pub closed spec fn state(&self) -> TrackerModel {
        self.state@
    }

    /// A tracker over `profiles` that has announced nothing yet.
    pub fn new(profiles: Vec<GameProfile>) -> (tracker: DebouncedTracker)
        ensures
            tracker.profiles() == profile_views(profiles@),
            tracker.state() == TrackerModel::initial(),
    {
        DebouncedTracker { profiles, state: TrackerState::new() }
    }

    /// The value last announced.
    pub fn current(&self) -> (game: Option<String>)
        ensures
            game.deep_view() == self.state().current,
    {
        self.state.current()
    }

    /// One poll tick: matches what the process query printed (`None` when it
    /// failed) against the profile table, feeds the detection to the tracker
    /// state, and returns the notification to send, if the tick confirmed a
    /// change. A failed query counts as "no game" and never stops the
    /// tracker.
    pub fn poll(&mut self, output: Option<&[u8]>) -> (update: Option<TrackerUpdate>)
        ensures
            final(self).profiles() == old(self).profiles(),
            final(self).state() == old(self).state().ticked(
                detected_game(output, old(self).profiles()),
            ),
            match update {
                Some(sent) => old(self).state().notified(
                    detected_game(output, old(self).profiles()),
                ) == Some(sent.game.deep_view()),
                None => old(self).state().notified(
                    detected_game(output, old(self).profiles()),
                ) is None,
            },
    {
        let detected = check_initial_game_state(output, &self.profiles);
        self.state.tick(detected)
    }
}

} // verus!
