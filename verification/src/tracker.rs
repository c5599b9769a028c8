//! The debounced tracker: a small state machine that turns noisy per-tick
//! detections into confirmed changes of the announced game.

use vstd::prelude::*;

verus! {

/// Milliseconds between two poll ticks.
pub const POLL_MS: u64 = 2000;

/// Consecutive ticks a game must be detected before it is announced.
pub const ENTER_CONFIRMATIONS: u8 = 2;

/// Consecutive ticks without a game before its absence is announced.
pub const LEAVE_CONFIRMATIONS: u8 = 3;

/// A game as contracts see it: its identifier, or `None` for "no tracked
/// game".
pub type GameView = Option<Seq<char>>;

/// The tracker state as contracts see it.
pub struct TrackerModel {
    /// The value last announced.
    pub current: GameView,
    /// The most recent raw detection.
    pub pending: GameView,
    /// Consecutive ticks for which `pending` has been detected, counted up
    /// to 255 and held there.
    pub confirm_count: nat,
}

impl TrackerModel {
    /// The state a tracker starts in: nothing announced, nothing pending.
    pub open spec fn initial() -> TrackerModel {
        TrackerModel { current: None, pending: None, confirm_count: 0 }
    }

    /// Confirmations needed before `pending` may be announced: fewer to
    /// enter a game than to leave one.
    pub open spec fn required(pending: GameView) -> nat {
        if pending is Some {
            ENTER_CONFIRMATIONS as nat
        } else {
            LEAVE_CONFIRMATIONS as nat
        }
    }

    /// The count after a tick that detected `detected`: one more when the
    /// detection repeats the pending one (at most 255), else one.
    pub open spec fn counted(self, detected: GameView) -> nat {
        if detected == self.pending {
            if self.confirm_count < 255 {
                self.confirm_count + 1
            } else {
                255
            }
        } else {
            1
        }
    }

    /// Whether a tick that detected `detected` confirms a change of the
    /// announced value.
    pub open spec fn confirms(self, detected: GameView) -> bool {
        self.counted(detected) >= Self::required(detected) && detected != self.current
    }

    /// The state after a tick that detected `detected`.
    pub open spec fn ticked(self, detected: GameView) -> TrackerModel {
        TrackerModel {
            current: if self.confirms(detected) {
                detected
            } else {
                self.current
            },
            pending: detected,
            confirm_count: self.counted(detected),
        }
    }

    /// The notification a tick that detected `detected` sends out: the newly
    /// announced value when the tick confirms a change, nothing otherwise.
    pub open spec fn notified(self, detected: GameView) -> Option<GameView> {
        if self.confirms(detected) {
            Some(detected)
        } else {
            None
        }
    }

    /// The state after the ticks of `history`, oldest first, starting from
    /// `self`.
    pub open spec fn ticked_through(self, history: Seq<GameView>) -> TrackerModel
        decreases history.len(),
    {
        if history.len() == 0 {
            self
        } else {
            self.ticked_through(history.drop_last()).ticked(history.last())
        }
    }

    /// The notifications sent during the ticks of `history`, oldest first,
    /// starting from `self`.
    pub open spec fn notified_through(self, history: Seq<GameView>) -> Seq<GameView>
        decreases history.len(),
    {
        if history.len() == 0 {
            Seq::empty()
        } else {
            let before = self.ticked_through(history.drop_last());
            let earlier = self.notified_through(history.drop_last());
            match before.notified(history.last()) {
                Some(game) => earlier.push(game),
                None => earlier,
            }
        }
    }
}

/// The number of detections at the end of `history` that all equal the last
/// one.
pub open spec fn streak(history: Seq<GameView>) -> nat
    decreases history.len(),
{
    if history.len() == 0 {
        0
    } else if history.len() >= 2 && history[history.len() - 2] == history.last() {
        streak(history.drop_last()) + 1
    } else {
        1
    }
}

/// Payload of a change notification: the game now announced, or `None` when
/// no tracked game is running any more.
#[derive(Clone, Debug, PartialEq, Eq)]
pub struct TrackerUpdate {
    pub game: Option<String>,
}

/// State of the debounced tracker. It belongs to the polling loop alone.
#[derive(Clone, Debug)]
pub struct TrackerState {
    current: Option<String>,
    pending: Option<String>,
    confirm_count: u8,
}

impl View for TrackerState {
    type V = TrackerModel;

    closed spec fn view(&self) -> TrackerModel {
        TrackerModel {
            current: self.current.deep_view(),
            pending: self.pending.deep_view(),
            confirm_count: self.confirm_count as nat,
        }
    }
}

/// Whether two games are the same: both absent, or the same identifier.
fn same_game(left: &Option<String>, right: &Option<String>) -> (same: bool)
    ensures
        same == (left.deep_view() == right.deep_view()),
{
    match (left, right) {
        (None, None) => true,
        (Some(a), Some(b)) => *a == *b,
        _ => false,
    }
}

/// A copy of `game`.
fn copy_game(game: &Option<String>) -> (copy: Option<String>)
    ensures
        copy.deep_view() == game.deep_view(),
{
    match game {
        Some(id) => Some(id.clone()),
        None => None,
    }
}

impl TrackerState {
    /// A tracker that has announced nothing and seen nothing.
    pub fn new() -> (state: TrackerState)
        ensures
            state@ == TrackerModel::initial(),
    {
        TrackerState { current: None, pending: None, confirm_count: 0 }
    }

    /// The value last announced.
    pub fn current(&self) -> (game: Option<String>)
        ensures
            game.deep_view() == self@.current,
    {
        copy_game(&self.current)
    }

    /// The most recent raw detection.
    pub fn pending(&self) -> (game: Option<String>)
        ensures
            game.deep_view() == self@.pending,
    {
        copy_game(&self.pending)
    }

    /// Consecutive ticks for which the pending detection has been seen.
    pub fn confirm_count(&self) -> (count: u8)
        ensures
            count == self@.confirm_count,
    {
        self.confirm_count
    }

    /// One poll tick with the raw detection `detected`.
    ///
    /// A detection equal to the pending one adds a confirmation; any other
    /// becomes the pending one with a single confirmation. Once a pending
    /// value that differs from the announced one has enough confirmations
    /// (two for a game, three for "no game") it becomes the announced value
    /// and is returned as the notification to send. In every other case
    /// nothing is returned and the announced value stays.
    pub fn tick(&mut self, detected: Option<String>) -> (update: Option<TrackerUpdate>)
        ensures
            final(self)@ == old(self)@.ticked(detected.deep_view()),
            match update {
                Some(sent) => old(self)@.notified(detected.deep_view()) == Some(
                    sent.game.deep_view(),
                ),
                None => old(self)@.notified(detected.deep_view()) is None,
            },
            update is Some <==> final(self)@.current != old(self)@.current,
            update matches Some(sent) ==> sent.game.deep_view() == final(self)@.current
                && sent.game.deep_view() == detected.deep_view(),
    {
        if same_game(&detected, &self.pending) {
            if self.confirm_count < u8::MAX {
                self.confirm_count = self.confirm_count + 1;
            }
        } else {
            self.pending = copy_game(&detected);
            self.confirm_count = 1;
        }
        let required: u8 = if detected.is_some() {
            ENTER_CONFIRMATIONS
        } else {
            LEAVE_CONFIRMATIONS
        };
        if self.confirm_count >= required && !same_game(&self.current, &detected) {
            self.current = copy_game(&detected);
            Some(TrackerUpdate { game: detected })
        } else {
            None
        }
    }
}

/// The last `count` detections of `history` all equal the last one, for
/// every `count` up to the streak.
pub proof fn lemma_streak_spans(history: Seq<GameView>, count: nat)
    requires
        count <= streak(history),
    ensures
        count <= history.len(),
        forall|i: int| history.len() - count <= i < history.len() ==> history[i] == history.last(),
    decreases history.len(),
{
    if history.len() >= 2 && history[history.len() - 2] == history.last() && count >= 1 {
        let earlier = history.drop_last();
        lemma_streak_spans(earlier, (count - 1) as nat);
        assert forall|i: int| history.len() - count <= i < history.len() implies history[i]
            == history.last() by {
            if i < history.len() - 1 {
                assert(history[i] == earlier[i]);
                assert(earlier.last() == history[history.len() - 2]);
            }
        }
    }
}

/// What a tracker holds after any history of detections, apart from the
/// announced value: the pending detection is the last one, and the count is
/// the streak of that detection, held at 255.
pub proof fn lemma_pending_and_count(history: Seq<GameView>)
    ensures
        history.len() > 0 ==> TrackerModel::initial().ticked_through(history).pending
            == history.last(),
        history.len() == 0 ==> TrackerModel::initial().ticked_through(history).pending is None,
        TrackerModel::initial().ticked_through(history).confirm_count == if streak(history)
            < 255 {
            streak(history)
        } else {
            255
        },
    decreases history.len(),
{
    if history.len() > 0 {
        lemma_pending_and_count(history.drop_last());
        if history.len() >= 2 {
            assert(history.drop_last().last() == history[history.len() - 2]);
        }
    }
}

/// When the announced value changes, and when it does not: the tick that
/// ends `history` changes it exactly when the last detection differs from the
/// value announced before and has by then been seen on as many consecutive
/// ticks as its kind requires. The new value is that detection.
pub proof fn lemma_change_iff_confirmed(history: Seq<GameView>)
    requires
        history.len() > 0,
    ensures
        ({
            let before = TrackerModel::initial().ticked_through(history.drop_last());
            let after = TrackerModel::initial().ticked_through(history);
            &&& after.current != before.current <==> history.last() != before.current && streak(
                history,
            ) >= TrackerModel::required(history.last())
            &&& after.current != before.current ==> after.current == history.last()
            &&& before.notified(history.last()) is Some <==> after.current != before.current
        }),
{
    lemma_pending_and_count(history.drop_last());
    if history.len() >= 2 {
        assert(history.drop_last().last() == history[history.len() - 2]);
    }
}

/// A pending detection that differs from the announced value is always short
/// of the confirmations it needs: as soon as it has them it is announced.
pub proof fn lemma_pending_differs_only_unconfirmed(history: Seq<GameView>)
    ensures
        ({
            let state = TrackerModel::initial().ticked_through(history);
            state.pending != state.current ==> state.confirm_count < TrackerModel::required(
                state.pending,
            )
        }),
{
    if history.len() > 0 {
        let before = TrackerModel::initial().ticked_through(history.drop_last());
        assert(TrackerModel::initial().ticked_through(history) == before.ticked(history.last()));
    }
}

/// The debounce guarantee. Over any sequence of detections, if the announced
/// value changes at tick `tick` (counted from 0), then it changes to the
/// detection of that tick, and that detection was also made on the tick
/// before; if the change is to "no game", on the two ticks before.
pub proof fn lemma_change_needs_confirmations(detections: Seq<GameView>, tick: int)
    requires
        0 <= tick < detections.len(),
        TrackerModel::initial().ticked_through(detections.take(tick + 1)).current
            != TrackerModel::initial().ticked_through(detections.take(tick)).current,
    ensures
        TrackerModel::initial().ticked_through(detections.take(tick + 1)).current
            == detections[tick],
        tick >= 1 && detections[tick - 1] == detections[tick],
        detections[tick] is None ==> tick >= 2 && detections[tick - 2] is None,
{
    let history = detections.take(tick + 1);
    assert(history.drop_last() == detections.take(tick));
    assert(history.last() == detections[tick]);
    lemma_change_iff_confirmed(history);
    lemma_streak_spans(history, TrackerModel::required(history.last()));
    assert(history[tick - 1] == detections[tick - 1]);
    if detections[tick] is None {
        assert(history[tick - 2] == detections[tick - 2]);
    }
}

/// Notifications mirror the changes of the announced value, in order and
/// without repetition: the last one sent carries the value now announced
/// (with none sent, nothing is announced), no two in a row carry the same
/// value, and the first one names a game.
pub proof fn lemma_notifications_track_current(history: Seq<GameView>)
    ensures
        ({
            let sent = TrackerModel::initial().notified_through(history);
            let state = TrackerModel::initial().ticked_through(history);
            &&& sent.len() == 0 ==> state.current is None
            &&& sent.len() > 0 ==> sent.last() == state.current
            &&& sent.len() > 0 ==> sent[0] is Some
            &&& forall|i: int, j: int|
                0 <= i < sent.len() && j == i + 1 && j < sent.len() ==> #[trigger] sent[i]
                    != #[trigger] sent[j]
        }),
    decreases history.len(),
{
    if history.len() > 0 {
        lemma_notifications_track_current(history.drop_last());
    }
}

} // verus!
