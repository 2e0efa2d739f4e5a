//! The track that every press plays from its beginning.

use vstd::prelude::*;
use crate::launchpad::ButtonEvent;
use crate::launchpad::colors::RGColor;
use crate::sound_board::EventHandler;
use crate::tracks::{
    after_event, after_update, color_on_event, color_on_update, Mode, TrackView, LONG_PRESS, PAUSED,
    PLAYING, PRESSED, PRESSED_RESET,
};
use crate::tracks::sink::{Sink, SinkCommand, SinkView};

verus! {

/// The sink held, with the file at its beginning: a sink that holds something
/// is replaced by a new one, the sink is held, and the file is appended.
pub open spec fn fire_reset(sink: SinkView) -> SinkView {
    if sink.empty {
        sink.pause().append()
    } else {
        sink.recreate().pause().append()
    }
}

/// The sink after a short press: it plays the file from its beginning.
pub open spec fn fire_short_press(sink: SinkView) -> SinkView {
    fire_reset(sink).play()
}

/// The sink after a long press, and after it has run empty: held, with the
/// file at its beginning.
pub open spec fn fire_long_press(sink: SinkView) -> SinkView {
    fire_reset(sink)
}

/// A track that a short press plays from its beginning and that a long press
/// rewinds.
pub struct FireTrack {
    button_name: String,
    pressed_on: Option<u64>,
    sink: Sink,
    file: String,
}

impl View for FireTrack {
    type V = TrackView;

    closed spec fn view(&self) -> TrackView {
        TrackView {
            mode: Mode::Fire,
            looping: false,
            button_name: self.button_name@,
            file: self.file@,
            pressed_on: self.pressed_on,
            sink: self.sink@,
        }
    }
}

impl FireTrack {
    /// A track for the given file, with the colour that its button has at
    /// first.  The track is held, with the file at its beginning.
    pub fn new(button_name: String, file: String) -> (made: (FireTrack, RGColor))
        ensures
            made.0@ == (TrackView {
                mode: Mode::Fire,
                looping: false,
                button_name: button_name@,
                file: file@,
                pressed_on: None,
                sink: fire_reset(SinkView::new()),
            }),
            made.1 == PAUSED,
    {
        let sink = Sink::new();
        let mut track = FireTrack { button_name, pressed_on: None, sink, file };
        track.action_reset();
        (track, PAUSED)
    }

    /// Holds the sink and puts the file at its beginning.
    fn reset(&mut self)
        ensures
            final(self)@ == (TrackView { sink: fire_reset(old(self)@.sink), ..old(self)@ }),
    {
        if !self.sink.empty() {
            self.sink.recreate();
        }
        self.sink.pause();
        self.sink.append();
    }

    /// Whether the button is down and has been for the time of a long press.
    fn detect_long_button_press(&self, now: u64) -> (long: bool)
        ensures
            long == crate::tracks::is_held_long(self@, now),
    {
        if let Some(pressed_on) = self.pressed_on {
            now >= pressed_on && now - pressed_on >= LONG_PRESS
        } else {
            false
        }
    }

    /// Plays the file from its beginning.
    fn action_fire(&mut self)
        ensures
            final(self)@ == (TrackView { sink: fire_short_press(old(self)@.sink), ..old(self)@ }),
    {
        self.reset();
        self.sink.play();
    }

    /// Holds the track and puts the file at its beginning.
    fn action_reset(&mut self)
        ensures
            final(self)@ == (TrackView { sink: fire_long_press(old(self)@.sink), ..old(self)@ }),
    {
        self.reset();
    }

    /// How the track handles its sound.
    pub fn mode(&self) -> (mode: Mode)
        ensures
            mode == Mode::Fire,
            mode == self@.mode,
    {
        Mode::Fire
    }

    /// The track's sink.
    pub fn sink(&self) -> (sink: &Sink)
        ensures
            sink@ == self@.sink,
    {
        &self.sink
    }

    /// The name of the button that the track was made for.
    pub fn button_name(&self) -> (name: &str)
        ensures
            name@ == self@.button_name,
    {
        self.button_name.as_str()
    }

    /// The path of the track's file.
    pub fn file(&self) -> (path: &str)
        ensures
            path@ == self@.file,
    {
        self.file.as_str()
    }

    /// When the button went down, if the press still waits to be decided.
    pub fn pressed_on(&self) -> (pressed_on: Option<u64>)
        ensures
            pressed_on == self@.pressed_on,
    {
        self.pressed_on
    }

    /// Takes note that the audio sink has played what it held to the end.
    pub fn end_of_stream(&mut self)
        ensures
            final(self)@ == (TrackView { sink: old(self)@.sink.end_of_stream(), ..old(self)@ }),
    {
        self.sink.end_of_stream();
    }

    /// Hands over the commands that were not carried out yet, oldest first,
    /// and keeps none of them.
    pub fn take_commands(&mut self) -> (commands: Vec<SinkCommand>)
        ensures
            commands@ == old(self)@.sink.commands,
            final(self)@ == (TrackView {
                sink: SinkView { commands: Seq::empty(), ..old(self)@.sink },
                ..old(self)@
            }),
    {
        self.sink.take_commands()
    }
}

impl EventHandler<ButtonEvent, RGColor> for FireTrack {
    fn on_event(&mut self, event: ButtonEvent, now: u64) -> (color: Option<RGColor>)
        ensures
            final(self)@ == after_event(old(self)@, event, now),
            color == color_on_event(old(self)@, event, now),
    {
        match event {
            ButtonEvent::Pressed => {
                self.pressed_on = Some(now);
                Some(PRESSED)
            },
            ButtonEvent::Released => {
                if self.pressed_on.is_some() {
                    if self.detect_long_button_press(now) {
                        self.pressed_on = None;
                        self.action_reset();
                    } else {
                        self.pressed_on = None;
                        self.action_fire();
                    }
                    if self.sink.is_paused() {
                        Some(PAUSED)
                    } else {
                        Some(PLAYING)
                    }
                } else {
                    None
                }
            },
        }
    }

    fn on_update(&mut self, now: u64) -> (color: Option<RGColor>)
        ensures
            final(self)@ == after_update(old(self)@, now),
            color == color_on_update(old(self)@, now),
    {
        if self.detect_long_button_press(now) {
            self.pressed_on = None;
            self.action_reset();
            Some(PRESSED_RESET)
        } else if self.pressed_on.is_none() && self.sink.empty() {
            self.action_reset();
            Some(PAUSED)
        } else {
            None
        }
    }
}

} // verus!
