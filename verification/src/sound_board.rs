//! The board: the controller and the tracks bound to its buttons.
//!
//! One frame of the board is one call of `mix`: the events that the
//! controller has collected go to the tracks of their buttons, in the order
//! in which they came, and then time passes for every track.  Whenever a
//! track answers with a colour, the LED of its button is set to it.

use vstd::prelude::*;
use crate::launchpad::{Button, ButtonEvent, Launchpad};
use crate::launchpad::colors::RGColor;
use crate::launchpad::error::Error;
use crate::sound_board::registry::Registry;
use crate::sound_board::rules::{
    color_on_route, color_on_tick, cut_at_event, cut_at_tick, frame_outcome, lit, route_all,
    route_to_track, tick_below, tick_track, BoardView,
};
use crate::tracks::{Track, TrackView};
use crate::tracks::sink::{SinkCommand, SinkView};

mod registry;
pub mod rules;

verus! {

/// Something that reacts to events and to the passing of time.  Both calls
/// are told the time, in milliseconds, and may answer with a reaction.
pub trait EventHandler<E, R> where E: Sized, R: Sized {
    /// Takes in an event that happened at `now`.
    fn on_event(&mut self, event: E, now: u64) -> Option<R>;

    /// Takes in that it is `now` and that no event is waiting.
    fn on_update(&mut self, now: u64) -> Option<R>;
}

/// A controller with the tracks that are bound to its buttons: at most one
/// track to a button.
pub struct SoundBoard<L: Launchpad<Col = RGColor>> {
    launchpad: L,
    tracks: Registry<L::But>,
    leds: Ghost<Seq<(L::But, RGColor)>>,
}

impl<L: Launchpad<Col = RGColor>> View for SoundBoard<L> {
    type V = BoardView<L::But>;

    closed spec fn view(&self) -> BoardView<L::But> {
        BoardView { tracks: self.tracks.view(), leds: self.leds@ }
    }
}

impl<L: Launchpad<Col = RGColor>> SoundBoard<L> {
    /// The controller.
    pub closed spec fn driver(&self) -> L {
        self.launchpad
    }

    /// Only buttons have tracks.  As the buttons have positions of their
    /// own below the number of buttons, a board has no more tracks than the
    /// controller has buttons.
    pub proof fn lemma_tracks_of_buttons(&self)
        ensures
            forall|button: L::But| #[trigger]
                self@.tracks.contains_key(button) ==> button.is_button() && button.position()
                    < L::But::TOTAL && L::But::at(button.position()) == button,
    {
        self.tracks.lemma_keys_are_buttons();
        assert forall|button: L::But| #[trigger]
            self@.tracks.contains_key(button) implies button.is_button() && button.position()
            < L::But::TOTAL && L::But::at(button.position()) == button by {
            button.lemma_position_of_button();
        }
    }

    /// A board for the given controller, with no track.
    pub fn new(launchpad: L) -> (board: Self)
        ensures
            board@ == (BoardView::<L::But> { tracks: Map::empty(), leds: Seq::empty() }),
            board.driver() == launchpad,
    {
        SoundBoard { launchpad, tracks: Registry::new(), leds: Ghost(Seq::empty()) }
    }

    /// Has the controller set the LED of a button, and takes note of it
    /// where the controller did.
    fn light(&mut self, button: &L::But, color: RGColor) -> (done: Result<(), Error>)
        ensures
            match done {
                Ok(()) => final(self)@ == lit(old(self)@, *button, Some(color)),
                Err(_) => final(self)@ == old(self)@,
            },
    {
        let answer = self.launchpad.set_led(button, color);
        self.lit_as_answered(button, color, answer)
    }

    /// Takes in what the controller has answered when it was asked to set
    /// the LED of a button: where it has set the LED, the board takes note
    /// of the colour; where it has failed, the board is as it was.  Either
    /// way the controller's answer is handed on.
    fn lit_as_answered(&mut self, button: &L::But, color: RGColor, answer: Result<(), Error>) -> (done:
        Result<(), Error>)
        ensures
            done == answer,
            final(self)@ == (if answer is Ok {
                lit(old(self)@, *button, Some(color))
            } else {
                old(self)@
            }),
            final(self).driver() == old(self).driver(),
    {
        if answer.is_ok() {
            self.leds = Ghost(self.leds@.push((*button, color)));
        }
        answer
    }

    /// Binds a track to a button and has the LED of the button set to the
    /// track's first colour.  A track that was bound to the button before is
    /// dropped.  Whether the controller has set the LED does not matter to
    /// the binding.
    pub fn register_track_to_button(&mut self, button: L::But, track: Track, initial_color: RGColor)
        requires
            button.is_button(),
        ensures
            final(self)@.tracks == old(self)@.tracks.insert(button, track@),
            final(self)@.leds == old(self)@.leds.push((button, initial_color)) || final(self)@.leds
                == old(self)@.leds,
    {
        let _ = self.light(&button, initial_color);
        self.tracks.put(button, track);
    }

    /// Binds a track to the button of the given name, as
    /// `register_track_to_button` does.  Where no button has the name,
    /// nothing is bound and nothing is asked of the controller, and the
    /// error is `UnknownButtonError` with the name.
    pub fn register_track(&mut self, name: &str, track: Track, initial_color: RGColor) -> (done:
        Result<(), Error>)
        ensures
            match done {
                Ok(()) => {
                    &&& L::But::named(name@) matches Some(button)
                    &&& final(self)@.tracks == old(self)@.tracks.insert(button, track@)
                    &&& final(self)@.leds == old(self)@.leds.push((button, initial_color))
                        || final(self)@.leds == old(self)@.leds
                },
                Err(e) => {
                    &&& L::But::named(name@) is None
                    &&& final(self)@ == old(self)@
                    &&& final(self).driver() == old(self).driver()
                    &&& e matches Error::UnknownButtonError(n)
                    &&& n@ == name@
                },
            },
    {
        match L::But::from_str(name) {
            Ok(button) => {
                self.register_track_to_button(button, track, initial_color);
                Ok(())
            },
            Err(e) => Err(e),
        }
    }

    /// Hands an event for a button to the track of the button, and answers
    /// with the colour that the LED of the button is to be set to, if any.
    /// An event for a button without a track is passed over.  Nothing is
    /// asked of the controller.
    pub fn dispatch(&mut self, button: &L::But, event: ButtonEvent, now: u64) -> (color: Option<
        RGColor,
    >)
        ensures
            final(self)@.tracks == route_to_track(old(self)@.tracks, *button, event, now),
            final(self)@.leds == old(self)@.leds,
            color == color_on_route(old(self)@.tracks, *button, event, now),
            final(self).driver() == old(self).driver(),
    {
        match self.tracks.take(button) {
            Some(mut track) => {
                let color = track.on_event(event, now);
                self.tracks.put(*button, track);
                color
            },
            None => None,
        }
    }

    /// Lets the track of a button know that it is `now`, and answers with
    /// the colour that the LED of the button is to be set to, if any.
    /// Nothing is asked of the controller.
    pub fn tick(&mut self, button: &L::But, now: u64) -> (color: Option<RGColor>)
        ensures
            final(self)@.tracks == tick_track(old(self)@.tracks, *button, now),
            final(self)@.leds == old(self)@.leds,
            color == color_on_tick(old(self)@.tracks, *button, now),
            final(self).driver() == old(self).driver(),
    {
        match self.tracks.take(button) {
            Some(mut track) => {
                let color = track.on_update(now);
                self.tracks.put(*button, track);
                color
            },
            None => None,
        }
    }

    /// Runs a frame at `now` on the events of a queue: every event goes to
    /// the track of its button, in the order of the queue, and then every
    /// track is let know that it is `now`, in the order of the buttons'
    /// positions.  Whenever a track answers with a colour, the LED of its
    /// button is set to it before anything else is done.  The frame ends at
    /// the first LED that the controller fails to set, with the
    /// controller's error.
    pub fn process(&mut self, event_queue: Vec<(L::But, ButtonEvent)>, now: u64) -> (done: Result<
        (),
        Error,
    >)
        ensures
            frame_outcome(old(self)@, event_queue@, now, done is Ok, final(self)@),
    {
        let ghost before = self@;
        let ghost queue = event_queue@;
        let mut taken: usize = 0;
        while taken < event_queue.len()
            invariant
                taken <= event_queue.len(),
                queue == event_queue@,
                before == old(self)@,
                self@ == route_all(before, queue.take(taken as int), now),
            decreases event_queue.len() - taken,
        {
            let (button, event) = event_queue[taken];
            let color = self.dispatch(&button, event, now);
            proof {
                assert(queue.take(taken + 1).drop_last() =~= queue.take(taken as int));
            }
            if let Some(new_color) = color {
                match self.light(&button, new_color) {
                    Ok(()) => {},
                    Err(e) => {
                        proof {
                            assert(self@ == cut_at_event(before, queue, now, taken as int));
                        }
                        return Err(e);
                    },
                }
            }
            taken += 1;
        }
        proof {
            assert(queue.take(taken as int) =~= queue);
        }
        let ghost routed = self@;
        let total: usize = L::But::TOTAL;
        let mut position: usize = 0;
        while position < total
            invariant
                position <= total,
                total == L::But::TOTAL,
                queue == event_queue@,
                before == old(self)@,
                routed == route_all(before, queue, now),
                self@ == tick_below(routed, position as nat, now),
            decreases total - position,
        {
            match L::But::from_id(position) {
                Ok(button) => {
                    let color = self.tick(&button, now);
                    if let Some(new_color) = color {
                        match self.light(&button, new_color) {
                            Ok(()) => {},
                            Err(e) => {
                                proof {
                                    assert(self@ == cut_at_tick(
                                        before,
                                        queue,
                                        now,
                                        position as nat,
                                    ));
                                }
                                return Err(e);
                            },
                        }
                    }
                },
                Err(_) => {},
            }
            position += 1;
        }
        Ok(())
    }

    /// Runs a frame at `now`: collects the events from the controller and
    /// runs the frame on them, as `process` does.  Where the controller
    /// fails to hand over its events, nothing has changed, and the error is
    /// the controller's.
    pub fn mix(&mut self, now: u64) -> (done: Result<(), Error>)
        ensures
            (done is Err && final(self)@ == old(self)@) || exists|queue: Seq<(L::But, ButtonEvent)>|
             #[trigger] frame_outcome(old(self)@, queue, now, done is Ok, final(self)@),
    {
        let polled = self.launchpad.poll();
        let ghost answer = polled;
        let done = self.mix_polled(polled, now);
        proof {
            if let Ok(event_queue) = answer {
                assert(frame_outcome(old(self)@, event_queue@, now, done is Ok, self@));
            }
        }
        done
    }

    /// Runs a frame at `now` on what the controller has answered when it
    /// was asked for its events.  Where it has handed over a queue, the
    /// frame runs on the queue, as `process` says.  Where it has failed,
    /// nothing is handed to a track and nothing is asked of the controller,
    /// and the error is the controller's.
    pub fn mix_polled(
        &mut self,
        polled: Result<Vec<(L::But, ButtonEvent)>, Error>,
        now: u64,
    ) -> (done: Result<(), Error>)
        ensures
            match polled {
                Ok(event_queue) => frame_outcome(
                    old(self)@,
                    event_queue@,
                    now,
                    done is Ok,
                    final(self)@,
                ),
                Err(e) => {
                    &&& done == Err::<(), Error>(e)
                    &&& final(self)@ == old(self)@
                    &&& final(self).driver() == old(self).driver()
                },
            },
    {
        match polled {
            Ok(event_queue) => self.process(event_queue, now),
            Err(e) => Err(e),
        }
    }

    /// Takes note that the audio sink of a button's track has played what it
    /// held to the end.  Does nothing for a button without a track.
    pub fn end_of_stream(&mut self, button: &L::But)
        ensures
            final(self)@.tracks == (if old(self)@.tracks.contains_key(*button) {
                old(self)@.tracks.insert(
                    *button,
                    TrackView {
                        sink: old(self)@.tracks[*button].sink.end_of_stream(),
                        ..old(self)@.tracks[*button]
                    },
                )
            } else {
                old(self)@.tracks
            }),
            final(self)@.leds == old(self)@.leds,
            final(self).driver() == old(self).driver(),
    {
        match self.tracks.take(button) {
            Some(mut track) => {
                track.end_of_stream();
                self.tracks.put(*button, track);
            },
            None => {},
        }
    }

    /// Hands over the commands that the track of a button has given and that
    /// were not carried out yet, oldest first, and keeps none of them.
    /// There is none for a button without a track.
    pub fn take_commands(&mut self, button: &L::But) -> (commands: Vec<SinkCommand>)
        ensures
            commands@ == (if old(self)@.tracks.contains_key(*button) {
                old(self)@.tracks[*button].sink.commands
            } else {
                Seq::empty()
            }),
            final(self)@.tracks == (if old(self)@.tracks.contains_key(*button) {
                old(self)@.tracks.insert(
                    *button,
                    TrackView {
                        sink: SinkView {
                            commands: Seq::empty(),
                            ..old(self)@.tracks[*button].sink
                        },
                        ..old(self)@.tracks[*button]
                    },
                )
            } else {
                old(self)@.tracks
            }),
            final(self)@.leds == old(self)@.leds,
            final(self).driver() == old(self).driver(),
    {
        match self.tracks.take(button) {
            Some(mut track) => {
                let commands = track.take_commands();
                self.tracks.put(*button, track);
                commands
            },
            None => Vec::new(),
        }
    }

    /// The track of a button, if the button has one.
    pub fn track(&self, button: &L::But) -> (track: Option<&Track>)
        ensures
            match track {
                Some(t) => self@.tracks.contains_key(*button) && self@.tracks[*button] == t@,
                None => !self@.tracks.contains_key(*button),
            },
    {
        self.tracks.get(button)
    }

    /// The controller.
    pub fn launchpad(&self) -> (launchpad: &L)
        ensures
            *launchpad == self.driver(),
    {
        &self.launchpad
    }

    /// The controller, to be worked on.  What is asked of the controller in
    /// this way, the board takes no note of.
    pub fn launchpad_mut(&mut self) -> (launchpad: &mut L)
        ensures
            *launchpad == old(self).driver(),
            final(self).driver() == *final(launchpad),
            final(self)@ == old(self)@,
    {
        &mut self.launchpad
    }
}

} // verus!
