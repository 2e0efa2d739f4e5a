//! The track that every press plays once more.

use vstd::prelude::*;
use crate::launchpad::ButtonEvent;
use crate::launchpad::colors::RGColor;
use crate::sound_board::EventHandler;
use crate::tracks::{
    after_event, after_update, color_on_event, color_on_update, Mode, TrackView, PAUSED, PRESSED,
};
use crate::tracks::sink::{Sink, SinkCommand, SinkView};

verus! {

/// The colour of a button that is up.
pub const DEFAULT: RGColor = PAUSED;

/// A track that plays its file once more at every press, on a sink of its
/// own each time, so that the sounds of several presses overlap.  The track
/// keeps none of these sinks: it never holds or stops what it has started.
pub struct FireForgetTrack {
    button_name: String,
    pressed_on: Option<u64>,
    sink: Sink,
    file: String,
}

impl View for FireForgetTrack {
    type V = TrackView;

    closed spec fn view(&self) -> TrackView {
        TrackView {
            mode: Mode::FireForget,
            looping: false,
            button_name: self.button_name@,
            file: self.file@,
            pressed_on: self.pressed_on,
            sink: self.sink@,
        }
    }
}

impl FireForgetTrack {
    /// A track for the given file, with the colour that its button has at
    /// first.
    pub fn new(button_name: String, file: String) -> (made: (FireForgetTrack, RGColor))
        ensures
            made.0@ == (TrackView {
                mode: Mode::FireForget,
                looping: false,
                button_name: button_name@,
                file: file@,
                pressed_on: None,
                sink: SinkView::new(),
            }),
            made.1 == DEFAULT,
    {
        let track = FireForgetTrack { button_name, pressed_on: None, sink: Sink::new(), file };
        (track, DEFAULT)
    }

    /// Plays the file on a sink of its own.
    fn fire(&mut self)
        ensures
            final(self)@ == (TrackView { sink: old(self)@.sink.spawn(), ..old(self)@ }),
    {
        self.sink.spawn();
    }

    /// How the track handles its sound.
    pub fn mode(&self) -> (mode: Mode)
        ensures
            mode == Mode::FireForget,
            mode == self@.mode,
    {
        Mode::FireForget
    }

    /// The track's sink.
    pub fn sink(&self) -> (sink: &Sink)
        ensures
            sink@ == self@.sink,
    {
        &self.sink
    }

    /// The name of the button that the track was made for.
    pub fn button_name(&self) -> (name: &str)
        ensures
            name@ == self@.button_name,
    {
        self.button_name.as_str()
    }

    /// The path of the track's file.
    pub fn file(&self) -> (path: &str)
        ensures
            path@ == self@.file,
    {
        self.file.as_str()
    }

    /// When the button went down, if the press still waits to be decided.
    pub fn pressed_on(&self) -> (pressed_on: Option<u64>)
        ensures
            pressed_on == self@.pressed_on,
    {
        self.pressed_on
    }

    /// Takes note that the audio sink has played what it held to the end.
    pub fn end_of_stream(&mut self)
        ensures
            final(self)@ == (TrackView { sink: old(self)@.sink.end_of_stream(), ..old(self)@ }),
    {
        self.sink.end_of_stream();
    }

    /// Hands over the commands that were not carried out yet, oldest first,
    /// and keeps none of them.
    pub fn take_commands(&mut self) -> (commands: Vec<SinkCommand>)
        ensures
            commands@ == old(self)@.sink.commands,
            final(self)@ == (TrackView {
                sink: SinkView { commands: Seq::empty(), ..old(self)@.sink },
                ..old(self)@
            }),
    {
        self.sink.take_commands()
    }
}

impl EventHandler<ButtonEvent, RGColor> for FireForgetTrack {
    fn on_event(&mut self, event: ButtonEvent, now: u64) -> (color: Option<RGColor>)
        ensures
            final(self)@ == after_event(old(self)@, event, now),
            color == color_on_event(old(self)@, event, now),
    {
        match event {
            ButtonEvent::Pressed => {
                self.fire();
                self.pressed_on = Some(now);
                Some(PRESSED)
            },
            ButtonEvent::Released => {
                if self.pressed_on.is_some() {
                    self.pressed_on = None;
                    Some(DEFAULT)
                } else {
                    None
                }
            },
        }
    }

    fn on_update(&mut self, now: u64) -> (color: Option<RGColor>)
        ensures
            final(self)@ == after_update(old(self)@, now),
            color == color_on_update(old(self)@, now),
    {
        None
    }
}

} // verus!
