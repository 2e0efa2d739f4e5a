//! What a frame does to a board, and what follows from it.

use vstd::prelude::*;
use crate::launchpad::{Button, ButtonEvent};
use crate::launchpad::colors::RGColor;
use crate::tracks::{after_event, after_update, color_on_event, color_on_update, TrackView};

verus! {

/// What holds of a board at one moment.
#[verifier::ext_equal]
#[verifier::reject_recursive_types(B)]
pub struct BoardView<B> {
    /// The tracks, each under the button that it is bound to.
    pub tracks: Map<B, TrackView>,
    /// The colours that the board has had the controller set, each with the
    /// button whose LED was set to it, oldest first.
    pub leds: Seq<(B, RGColor)>,
}

/// The board after one more LED was set, where a colour is given, and the
/// board as it is, where none is.
pub open spec fn lit<B: Button>(board: BoardView<B>, button: B, color: Option<RGColor>) -> BoardView<
    B,
> {
    match color {
        Some(color) => BoardView { leds: board.leds.push((button, color)), ..board },
        None => board,
    }
}

/// The tracks after an event for a button: the track of the button takes
/// the event in; an event for a button without a track changes nothing.
pub open spec fn route_to_track<B: Button>(
    tracks: Map<B, TrackView>,
    button: B,
    event: ButtonEvent,
    now: u64,
) -> Map<B, TrackView> {
    if tracks.contains_key(button) {
        tracks.insert(button, after_event(tracks[button], event, now))
    } else {
        tracks
    }
}

/// The colour that the LED of a button is set to on an event for the button,
/// if any.
pub open spec fn color_on_route<B: Button>(
    tracks: Map<B, TrackView>,
    button: B,
    event: ButtonEvent,
    now: u64,
) -> Option<RGColor> {
    if tracks.contains_key(button) {
        color_on_event(tracks[button], event, now)
    } else {
        None
    }
}

/// The tracks after the tick at `now` has come to the track of a button.
pub open spec fn tick_track<B: Button>(tracks: Map<B, TrackView>, button: B, now: u64) -> Map<
    B,
    TrackView,
> {
    if tracks.contains_key(button) {
        tracks.insert(button, after_update(tracks[button], now))
    } else {
        tracks
    }
}

/// The colour that the LED of a button is set to when the tick at `now`
/// comes to the track of the button, if any.
pub open spec fn color_on_tick<B: Button>(tracks: Map<B, TrackView>, button: B, now: u64) -> Option<
    RGColor,
> {
    if tracks.contains_key(button) {
        color_on_update(tracks[button], now)
    } else {
        None
    }
}

/// The board after an event for a button: the track of the button has taken
/// the event in, and the LED of the button was set to the colour that the
/// track gave.
pub open spec fn route<B: Button>(board: BoardView<B>, button: B, event: ButtonEvent, now: u64)
    -> BoardView<B> {
    lit(
        BoardView { tracks: route_to_track(board.tracks, button, event, now), ..board },
        button,
        color_on_route(board.tracks, button, event, now),
    )
}

/// The board after the events of a queue, taken in from the first to the
/// last.
pub open spec fn route_all<B: Button>(board: BoardView<B>, queue: Seq<(B, ButtonEvent)>, now: u64)
    -> BoardView<B>
    decreases queue.len(),
{
    if queue.len() == 0 {
        board
    } else {
        route(route_all(board, queue.drop_last(), now), queue.last().0, queue.last().1, now)
    }
}

/// The board after the tick at `now` has come to the track of the button at
/// a position, and the LED of the button was set to the colour that the
/// track gave.
pub open spec fn tick_at<B: Button>(board: BoardView<B>, position: nat, now: u64) -> BoardView<B> {
    lit(
        BoardView { tracks: tick_track(board.tracks, B::at(position), now), ..board },
        B::at(position),
        color_on_tick(board.tracks, B::at(position), now),
    )
}

/// The board after the tick at `now` has come to the tracks of the buttons
/// at the positions below `limit`, from the first position on.
pub open spec fn tick_below<B: Button>(board: BoardView<B>, limit: nat, now: u64) -> BoardView<B>
    decreases limit,
{
    if limit == 0 {
        board
    } else {
        tick_at(tick_below(board, (limit - 1) as nat, now), (limit - 1) as nat, now)
    }
}

/// The board after a whole frame at `now`: the events of the queue are
/// taken in, all of them and in their order, and then the tick comes to
/// every track, in the order of the buttons' positions.
pub open spec fn frame<B: Button>(board: BoardView<B>, queue: Seq<(B, ButtonEvent)>, now: u64)
    -> BoardView<B> {
    tick_below(route_all(board, queue, now), B::TOTAL as nat, now)
}

/// The board where a step of a frame was to lead from `before` to `after`
/// and the controller failed to set the LED of that step: the tracks are
/// those of `after`, the LEDs that were set are those of `before`.
pub open spec fn unlit<B: Button>(before: BoardView<B>, after: BoardView<B>) -> BoardView<B> {
    BoardView { tracks: after.tracks, leds: before.leds }
}

/// Whether a colour is due for the LED of the button of the event at an
/// index of a queue, the events before it having been taken in.
pub open spec fn led_at_event<B: Button>(
    before: BoardView<B>,
    queue: Seq<(B, ButtonEvent)>,
    now: u64,
    index: int,
) -> bool {
    color_on_route(
        route_all(before, queue.take(index), now).tracks,
        queue[index].0,
        queue[index].1,
        now,
    ) is Some
}

/// The board where a frame ends at the LED of the event at an index of its
/// queue: the events up to that one were taken in, all of them and in their
/// order, and the LEDs of the events before it were set.
pub open spec fn cut_at_event<B: Button>(
    before: BoardView<B>,
    queue: Seq<(B, ButtonEvent)>,
    now: u64,
    index: int,
) -> BoardView<B> {
    unlit(
        route_all(before, queue.take(index), now),
        route_all(before, queue.take(index + 1), now),
    )
}

/// Whether a colour is due for the LED of the button at a position when the
/// tick comes to its track, the events of the queue having been taken in
/// and the tick having come to the tracks below the position.
pub open spec fn led_at_tick<B: Button>(
    before: BoardView<B>,
    queue: Seq<(B, ButtonEvent)>,
    now: u64,
    position: nat,
) -> bool {
    color_on_tick(
        tick_below(route_all(before, queue, now), position, now).tracks,
        B::at(position),
        now,
    ) is Some
}

/// The board where a frame ends at the LED of the tick at a position: all
/// events were taken in, the tick has come to the tracks up to that
/// position, and the LEDs before that one were set.
pub open spec fn cut_at_tick<B: Button>(
    before: BoardView<B>,
    queue: Seq<(B, ButtonEvent)>,
    now: u64,
    position: nat,
) -> BoardView<B> {
    unlit(
        tick_below(route_all(before, queue, now), position, now),
        tick_below(route_all(before, queue, now), position + 1, now),
    )
}

/// Whether `after` is what a frame at `now` leaves of the board `before`
/// when the frame ends at an LED that the controller fails to set, be it
/// the LED of an event or the LED of a tick.
pub open spec fn cut_short<B: Button>(
    before: BoardView<B>,
    queue: Seq<(B, ButtonEvent)>,
    now: u64,
    after: BoardView<B>,
) -> bool {
    ||| exists|index: int|
        0 <= index < queue.len() && led_at_event(before, queue, now, index) && after
            == #[trigger] cut_at_event(before, queue, now, index)
    ||| exists|position: nat|
        position < B::TOTAL && led_at_tick(before, queue, now, position) && after
            == #[trigger] cut_at_tick(before, queue, now, position)
}

/// Whether `after` is what a frame at `now` can leave of the board
/// `before`, the events of the frame being those of `queue`: what the whole
/// frame leaves, where the frame came to its end, and what is left when the
/// frame ends early, where it did not.
pub open spec fn frame_outcome<B: Button>(
    before: BoardView<B>,
    queue: Seq<(B, ButtonEvent)>,
    now: u64,
    complete: bool,
    after: BoardView<B>,
) -> bool {
    if complete {
        after == frame(before, queue, now)
    } else {
        cut_short(before, queue, now, after)
    }
}

/// The events of a queue that are for a given button, in their order.
pub open spec fn events_for<B: Button>(queue: Seq<(B, ButtonEvent)>, button: B) -> Seq<ButtonEvent>
    decreases queue.len(),
{
    if queue.len() == 0 {
        Seq::empty()
    } else if queue.last().0 == button {
        events_for(queue.drop_last(), button).push(queue.last().1)
    } else {
        events_for(queue.drop_last(), button)
    }
}

/// A track after it has taken in some events, from the first to the last.
pub open spec fn after_events(track: TrackView, events: Seq<ButtonEvent>, now: u64) -> TrackView
    decreases events.len(),
{
    if events.len() == 0 {
        track
    } else {
        after_event(after_events(track, events.drop_last(), now), events.last(), now)
    }
}

/// Whether `later` are the LEDs `earlier` and then, maybe, more, each of
/// them the LED of a button that has a track among `tracks`.
pub open spec fn leds_grown<B: Button>(
    tracks: Map<B, TrackView>,
    earlier: Seq<(B, RGColor)>,
    later: Seq<(B, RGColor)>,
) -> bool {
    &&& earlier.len() <= later.len()
    &&& later.take(earlier.len() as int) == earlier
    &&& forall|i: int| earlier.len() <= i < later.len() ==> tracks.contains_key(#[trigger] later[i].0)
}

/// The events of a queue bind no track and drop none, and every track takes
/// in the events for its own button, all of them and in their order, and no
/// other event.  So an event for a button without a track changes nothing.
/// No LED that was set is taken back, and no LED is set but that of a button
/// with a track.
pub proof fn lemma_every_track_takes_its_own_events<B: Button>(
    board: BoardView<B>,
    queue: Seq<(B, ButtonEvent)>,
    now: u64,
)
    ensures
        route_all(board, queue, now).tracks.dom() == board.tracks.dom(),
        forall|button: B| #[trigger]
            board.tracks.contains_key(button) ==> route_all(board, queue, now).tracks[button]
                == after_events(board.tracks[button], events_for(queue, button), now),
        leds_grown(board.tracks, board.leds, route_all(board, queue, now).leds),
    decreases queue.len(),
{
    if queue.len() == 0 {
        assert(board.leds.take(board.leds.len() as int) =~= board.leds);
    } else {
        let earlier = queue.drop_last();
        let routed = route_all(board, earlier, now);
        let after = route_all(board, queue, now);
        lemma_every_track_takes_its_own_events(board, earlier, now);
        assert forall|button: B| #[trigger] board.tracks.contains_key(button) implies after.tracks[button]
            == after_events(board.tracks[button], events_for(queue, button), now) by {
            if queue.last().0 == button {
                let events = events_for(queue, button);
                assert(events.drop_last() =~= events_for(earlier, button));
            }
        }
        assert(after.leds.take(board.leds.len() as int) =~= routed.leds.take(
            board.leds.len() as int,
        ));
    }
}

/// The tick binds no track and drops none.  When it has come to the tracks
/// of the buttons at the positions below `limit`, each of these tracks has
/// had it once, and no other track has had it.  No LED that was set is
/// taken back, and no LED is set but that of a button with a track.
pub proof fn lemma_tick_comes_once<B: Button>(board: BoardView<B>, limit: nat, now: u64)
    requires
        limit <= B::TOTAL,
        forall|button: B| #[trigger] board.tracks.contains_key(button) ==> button.is_button(),
    ensures
        tick_below(board, limit, now).tracks.dom() == board.tracks.dom(),
        forall|button: B| #[trigger]
            board.tracks.contains_key(button) ==> tick_below(board, limit, now).tracks[button] == (
            if button.position() < limit {
                after_update(board.tracks[button], now)
            } else {
                board.tracks[button]
            }),
        leds_grown(board.tracks, board.leds, tick_below(board, limit, now).leds),
    decreases limit,
{
    if limit == 0 {
        assert(board.leds.take(board.leds.len() as int) =~= board.leds);
    } else {
        let position = (limit - 1) as nat;
        let below = tick_below(board, position, now);
        let after = tick_below(board, limit, now);
        lemma_tick_comes_once(board, position, now);
        B::lemma_at_position(position);
        assert forall|button: B| #[trigger] board.tracks.contains_key(button) implies after.tracks[button]
            == (if button.position() < limit {
            after_update(board.tracks[button], now)
        } else {
            board.tracks[button]
        }) by {
            if button.position() == position {
                button.lemma_position_identifies(&B::at(position));
            }
        }
        assert(after.leds.take(board.leds.len() as int) =~= below.leds.take(
            board.leds.len() as int,
        ));
    }
}

/// A frame binds no track and drops none.  In a frame every track takes in
/// the events for its own button, all of them and in their order, and then
/// the tick, once; no tick comes before an event.  No LED that was set is
/// taken back, and no LED is set but that of a button with a track.
pub proof fn lemma_frame_of_a_track<B: Button>(
    board: BoardView<B>,
    queue: Seq<(B, ButtonEvent)>,
    now: u64,
)
    requires
        forall|button: B| #[trigger] board.tracks.contains_key(button) ==> button.is_button(),
    ensures
        frame(board, queue, now).tracks.dom() == board.tracks.dom(),
        forall|button: B| #[trigger]
            board.tracks.contains_key(button) ==> frame(board, queue, now).tracks[button]
                == after_update(
                after_events(board.tracks[button], events_for(queue, button), now),
                now,
            ),
        leds_grown(board.tracks, board.leds, frame(board, queue, now).leds),
{
    let routed = route_all(board, queue, now);
    let after = frame(board, queue, now);
    lemma_every_track_takes_its_own_events(board, queue, now);
    lemma_tick_comes_once(routed, B::TOTAL as nat, now);
    assert forall|button: B| #[trigger] board.tracks.contains_key(button) implies after.tracks[button]
        == after_update(
        after_events(board.tracks[button], events_for(queue, button), now),
        now,
    ) by {
        button.lemma_position_of_button();
    }
    assert(after.leds.take(board.leds.len() as int) =~= routed.leds.take(
        board.leds.len() as int,
    ));
    assert forall|i: int| board.leds.len() <= i < after.leds.len() implies board.tracks.contains_key(
        #[trigger] after.leds[i].0,
    ) by {
        if i < routed.leds.len() {
            assert(after.leds.take(routed.leds.len() as int)[i] == after.leds[i]);
        }
    }
}

/// A queue taken in after another is the two taken in as one.
pub proof fn lemma_route_all_in_turn<B: Button>(
    board: BoardView<B>,
    first: Seq<(B, ButtonEvent)>,
    second: Seq<(B, ButtonEvent)>,
    now: u64,
)
    ensures
        route_all(board, first + second, now) == route_all(
            route_all(board, first, now),
            second,
            now,
        ),
    decreases second.len(),
{
    if second.len() > 0 {
        lemma_route_all_in_turn(board, first, second.drop_last(), now);
        assert((first + second).drop_last() =~= first + second.drop_last());
    }
}

} // verus!
