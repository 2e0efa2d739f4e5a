//! The track that a press plays and holds in turn.

use vstd::prelude::*;
use crate::launchpad::ButtonEvent;
use crate::launchpad::colors::RGColor;
use crate::sound_board::EventHandler;
use crate::tracks::{
    after_event, after_update, color_on_event, color_on_update, Mode, TrackView, LONG_PRESS, PAUSED,
    PLAYING, PRESSED, PRESSED_RESET,
};
use crate::tracks::sink::{Sink, SinkCommand, SinkView};

verus! {

/// The sink with the file at its beginning: a sink that holds something is
/// replaced by a new one, held if the old one was, and the file is appended.
pub open spec fn toggle_reset(sink: SinkView) -> SinkView {
    if sink.empty {
        sink.append()
    } else if sink.paused {
        sink.recreate().pause().append()
    } else {
        sink.recreate().append()
    }
}

/// The sink after a short press: an empty sink gets the file again, and then
/// a held sink plays and a playing sink is held.
pub open spec fn toggle_short_press(sink: SinkView) -> SinkView {
    let filled = if sink.empty {
        toggle_reset(sink)
    } else {
        sink
    };
    if filled.paused {
        filled.play()
    } else {
        filled.pause()
    }
}

/// The sink after a long press: held, with the file at its beginning.
pub open spec fn toggle_long_press(sink: SinkView) -> SinkView {
    toggle_reset(sink.pause())
}

/// The sink after it has run empty: a looping track starts over, any other is
/// held with the file at its beginning.
pub open spec fn toggle_end_of_stream(sink: SinkView, looping: bool) -> SinkView {
    if looping {
        toggle_reset(sink).play()
    } else {
        toggle_reset(sink.pause())
    }
}

/// A track that a short press plays and holds in turn and that a long press
/// rewinds.
pub struct ToggleTrack {
    button_name: String,
    pressed_on: Option<u64>,
    sink: Sink,
    file: String,
    looping: bool,
}

impl View for ToggleTrack {
    type V = TrackView;

    closed spec fn view(&self) -> TrackView {
        TrackView {
            mode: Mode::Toggle,
            looping: self.looping,
            button_name: self.button_name@,
            file: self.file@,
            pressed_on: self.pressed_on,
            sink: self.sink@,
        }
    }
}

impl ToggleTrack {
    /// A track for the given file, with the colour that its button has at
    /// first.  The track is held, and its sink is empty until the first tick
    /// or the first short press.
    pub fn new(button_name: String, file: String, looping: bool) -> (made: (ToggleTrack, RGColor))
        ensures
            made.0@ == (TrackView {
                mode: Mode::Toggle,
                looping,
                button_name: button_name@,
                file: file@,
                pressed_on: None,
                sink: SinkView::new().pause(),
            }),
            made.1 == PAUSED,
    {
        let mut sink = Sink::new();
        sink.pause();
        let track = ToggleTrack { button_name, pressed_on: None, sink, file, looping };
        (track, PAUSED)
    }

    /// Puts the file at its beginning.  Leaves a held sink held and a playing
    /// sink playing.
    fn reset(&mut self)
        ensures
            final(self)@ == (TrackView { sink: toggle_reset(old(self)@.sink), ..old(self)@ }),
    {
        if !self.sink.empty() {
            let is_paused = self.sink.is_paused();
            self.sink.recreate();
            if self.sink.is_paused() && !is_paused {
                self.sink.play()
            } else if !self.sink.is_paused() && is_paused {
                self.sink.pause()
            }
        }
        self.sink.append()
    }

    /// Whether the button is down and has been for the time of a long press.
    fn detect_long_button_press(&self, now: u64) -> (long: bool)
        ensures
            long == crate::tracks::is_held_long(self@, now),
    {
        if let Some(pressed_on) = self.pressed_on {
            now >= pressed_on && now - pressed_on >= LONG_PRESS
        } else {
            false
        }
    }

    /// Plays a held track and holds a playing one.
    fn action_toggle_play(&mut self)
        ensures
            final(self)@ == (TrackView { sink: toggle_short_press(old(self)@.sink), ..old(self)@ }),
    {
        if self.sink.empty() {
            self.reset();
        }
        if self.sink.is_paused() {
            self.sink.play();
        } else {
            self.sink.pause();
        }
    }

    /// Puts the file at its beginning and plays.
    fn action_restart(&mut self)
        ensures
            final(self)@ == (TrackView { sink: toggle_reset(old(self)@.sink).play(), ..old(self)@ }),
    {
        self.reset();
        self.sink.play();
    }

    /// Holds the track and puts the file at its beginning.
    fn action_reset(&mut self)
        ensures
            final(self)@ == (TrackView { sink: toggle_long_press(old(self)@.sink), ..old(self)@ }),
    {
        self.sink.pause();
        self.reset();
    }

    /// How the track handles its sound.
    pub fn mode(&self) -> (mode: Mode)
        ensures
            mode == Mode::Toggle,
            mode == self@.mode,
    {
        Mode::Toggle
    }

    /// The track's sink.
    pub fn sink(&self) -> (sink: &Sink)
        ensures
            sink@ == self@.sink,
    {
        &self.sink
    }

    /// The name of the button that the track was made for.
    pub fn button_name(&self) -> (name: &str)
        ensures
            name@ == self@.button_name,
    {
        self.button_name.as_str()
    }

    /// The path of the track's file.
    pub fn file(&self) -> (path: &str)
        ensures
            path@ == self@.file,
    {
        self.file.as_str()
    }

    /// When the button went down, if the press still waits to be decided.
    pub fn pressed_on(&self) -> (pressed_on: Option<u64>)
        ensures
            pressed_on == self@.pressed_on,
    {
        self.pressed_on
    }

    /// Takes note that the audio sink has played what it held to the end.
    pub fn end_of_stream(&mut self)
        ensures
            final(self)@ == (TrackView { sink: old(self)@.sink.end_of_stream(), ..old(self)@ }),
    {
        self.sink.end_of_stream();
    }

    /// Hands over the commands that were not carried out yet, oldest first,
    /// and keeps none of them.
    pub fn take_commands(&mut self) -> (commands: Vec<SinkCommand>)
        ensures
            commands@ == old(self)@.sink.commands,
            final(self)@ == (TrackView {
                sink: SinkView { commands: Seq::empty(), ..old(self)@.sink },
                ..old(self)@
            }),
    {
        self.sink.take_commands()
    }
}

impl EventHandler<ButtonEvent, RGColor> for ToggleTrack {
    fn on_event(&mut self, event: ButtonEvent, now: u64) -> (color: Option<RGColor>)
        ensures
            final(self)@ == after_event(old(self)@, event, now),
            color == color_on_event(old(self)@, event, now),
    {
        match event {
            ButtonEvent::Pressed => {
                self.pressed_on = Some(now);
                Some(PRESSED)
            },
            ButtonEvent::Released => {
                if self.pressed_on.is_some() {
                    if self.detect_long_button_press(now) {
                        self.pressed_on = None;
                        self.action_reset();
                    } else {
                        self.pressed_on = None;
                        self.action_toggle_play();
                    }
                    if self.sink.is_paused() {
                        Some(PAUSED)
                    } else {
                        Some(PLAYING)
                    }
                } else {
                    None
                }
            },
        }
    }

    fn on_update(&mut self, now: u64) -> (color: Option<RGColor>)
        ensures
            final(self)@ == after_update(old(self)@, now),
            color == color_on_update(old(self)@, now),
    {
        if self.detect_long_button_press(now) {
            self.pressed_on = None;
            self.action_reset();
            Some(PRESSED_RESET)
        } else if self.pressed_on.is_none() && self.sink.empty() && self.looping {
            self.action_restart();
            Some(PLAYING)
        } else if self.pressed_on.is_none() && self.sink.empty() && !self.looping {
            self.action_reset();
            Some(PAUSED)
        } else {
            None
        }
    }
}

} // verus!
