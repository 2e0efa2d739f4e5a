//! Tracks: what a button does to the sound bound to it.
//!
//! A track remembers when its button went down.  What the press means is
//! decided when the button comes up, or when it has been held for the time of
//! a long press, whichever is first; after that the press is forgotten, so
//! that a release that follows a long press changes nothing.

use vstd::prelude::*;
use crate::launchpad::ButtonEvent;
use crate::launchpad::colors::{rg_color, RGColor};
use crate::settings::TrackConfig;
use crate::sound_board::EventHandler;
use crate::text::same_text;
use crate::tracks::fire::{fire_long_press, fire_reset, fire_short_press, FireTrack};
use crate::tracks::fire_and_forget::FireForgetTrack;
use crate::tracks::sink::{Sink, SinkCommand, SinkView};
use crate::tracks::toggle::{
    toggle_end_of_stream, toggle_long_press, toggle_short_press, ToggleTrack,
};

pub mod fire;
pub mod fire_and_forget;
pub mod sink;
pub mod toggle;

verus! {

/// How long a button is held, in milliseconds, before the press counts as a
/// long one.
pub const LONG_PRESS: u64 = 1000;

/// The colour of a button whose track is held.
pub const PAUSED: RGColor = 0x02;

/// The colour of a button whose track plays.
pub const PLAYING: RGColor = 0x20;

/// The colour of a button that is down.
pub const PRESSED: RGColor = 0x33;

/// The colour of a button that was held down until its track was rewound.
pub const PRESSED_RESET: RGColor = 0x03;

/// The colours of a track are colours of the controller: full red and green
/// for a button that is down, full red for one that was held down, half red
/// for a held track and half green for a playing one.
pub proof fn lemma_track_colors()
    ensures
        PAUSED == rg_color(2, 0),
        PLAYING == rg_color(0, 2),
        PRESSED == rg_color(3, 3),
        PRESSED_RESET == rg_color(3, 0),
{
}

/// The ways in which a button can handle its sound.
#[derive(Clone, Copy, Debug, PartialEq, Eq, Structural)]
pub enum Mode {
    /// A press plays or holds the track; a long press rewinds it.
    Toggle,
    /// Every press plays the sound once more, whatever plays already.
    FireForget,
    /// A press plays the track from its beginning; a long press rewinds it.
    Fire,
}

/// What holds of a track at one moment.
#[verifier::ext_equal]
pub struct TrackView {
    /// How the track handles its sound.
    pub mode: Mode,
    /// Whether the track starts over by itself when it has played to its end.
    pub looping: bool,
    /// The name of the button that the track was made for.
    pub button_name: Seq<char>,
    /// The path of the track's file.
    pub file: Seq<char>,
    /// When the button went down, if the press still waits to be decided.
    pub pressed_on: Option<u64>,
    /// The track's sink.
    pub sink: SinkView,
}

/// Whether a button that went down at `pressed_on` has by `now` been held for
/// the time of a long press.
pub open spec fn is_long_press(pressed_on: u64, now: u64) -> bool {
    now - pressed_on >= LONG_PRESS
}

/// The sink after a short press.  A `FireForget` track has started its sound
/// when the button went down, and does nothing more when it comes up.
pub open spec fn short_press(mode: Mode, sink: SinkView) -> SinkView {
    match mode {
        Mode::Toggle => toggle_short_press(sink),
        Mode::Fire => fire_short_press(sink),
        Mode::FireForget => sink,
    }
}

/// The sink after a long press.  To a `FireForget` track a long press is a
/// press like any other.
pub open spec fn long_press(mode: Mode, sink: SinkView) -> SinkView {
    match mode {
        Mode::Toggle => toggle_long_press(sink),
        Mode::Fire => fire_long_press(sink),
        Mode::FireForget => sink,
    }
}

/// The sink after the track has dealt with its having run empty.
pub open spec fn end_of_stream(mode: Mode, looping: bool, sink: SinkView) -> SinkView {
    match mode {
        Mode::Toggle => toggle_end_of_stream(sink, looping),
        Mode::Fire => fire_long_press(sink),
        Mode::FireForget => sink,
    }
}

/// The colour that shows the state of a sink.  The button of a `FireForget`
/// track has the colour of a held track whenever it is up.
pub open spec fn state_color(mode: Mode, sink: SinkView) -> RGColor {
    if mode == Mode::FireForget || sink.paused {
        PAUSED
    } else {
        PLAYING
    }
}

/// The track after an event at `now`.
///
/// A press is remembered with its time; in mode `FireForget` it also starts
/// the sound.  A release with no press remembered changes nothing.  Any other
/// release is taken for a long press if the button was held long enough, and
/// for a short one if not, and the press is forgotten.
pub open spec fn after_event(track: TrackView, event: ButtonEvent, now: u64) -> TrackView {
    match event {
        ButtonEvent::Pressed => TrackView {
            pressed_on: Some(now),
            sink: if track.mode == Mode::FireForget {
                track.sink.spawn()
            } else {
                track.sink
            },
            ..track
        },
        ButtonEvent::Released => match track.pressed_on {
            None => track,
            Some(pressed_on) => TrackView {
                pressed_on: None,
                sink: if is_long_press(pressed_on, now) {
                    long_press(track.mode, track.sink)
                } else {
                    short_press(track.mode, track.sink)
                },
                ..track
            },
        },
    }
}

/// The colour that a track gives its button on an event at `now`, if any: the
/// colour of a button that is down on a press, nothing on a release with no
/// press remembered, the colour of the sink's new state on any other release.
pub open spec fn color_on_event(track: TrackView, event: ButtonEvent, now: u64) -> Option<RGColor> {
    match event {
        ButtonEvent::Pressed => Some(PRESSED),
        ButtonEvent::Released => if track.pressed_on is Some {
            Some(state_color(track.mode, after_event(track, event, now).sink))
        } else {
            None
        },
    }
}

/// Whether the button of a track is down at `now` and has been for the time
/// of a long press.  A track in mode `FireForget` never takes note of it.
pub open spec fn is_held_long(track: TrackView, now: u64) -> bool {
    &&& track.mode != Mode::FireForget
    &&& track.pressed_on matches Some(pressed_on)
    &&& is_long_press(pressed_on, now)
}

/// Whether a track finds at a tick that its sink has run empty: no press
/// waits to be decided, and the sink holds nothing.  A track in mode
/// `FireForget` never takes note of it.
pub open spec fn is_run_out(track: TrackView) -> bool {
    &&& track.mode != Mode::FireForget
    &&& track.pressed_on is None
    &&& track.sink.empty
}

/// The track after a tick at `now`.
///
/// A button that has been held long enough has its long press now, and the
/// press is forgotten.  Else a track that has run empty is rewound, or
/// started over if it loops.  Else nothing changes.
pub open spec fn after_update(track: TrackView, now: u64) -> TrackView {
    if is_held_long(track, now) {
        TrackView { pressed_on: None, sink: long_press(track.mode, track.sink), ..track }
    } else if is_run_out(track) {
        TrackView { sink: end_of_stream(track.mode, track.looping, track.sink), ..track }
    } else {
        track
    }
}

/// The colour that a track gives its button at a tick at `now`, if any.
pub open spec fn color_on_update(track: TrackView, now: u64) -> Option<RGColor> {
    if is_held_long(track, now) {
        Some(PRESSED_RESET)
    } else if is_run_out(track) {
        Some(state_color(track.mode, after_update(track, now).sink))
    } else {
        None
    }
}

/// A press and the release that follows it are one press, short or long by
/// the time between them, and never both; after the release no press waits
/// to be decided, and the button has the colour of the sink's new state.
pub proof fn lemma_press_and_release(track: TrackView, pressed: u64, released: u64)
    ensures
        ({
            let down = after_event(track, ButtonEvent::Pressed, pressed);
            let up = after_event(down, ButtonEvent::Released, released);
            &&& down.pressed_on == Some(pressed)
            &&& color_on_event(track, ButtonEvent::Pressed, pressed) == Some(PRESSED)
            &&& up.pressed_on is None
            &&& released - pressed >= LONG_PRESS ==> up.sink == long_press(track.mode, down.sink)
            &&& released - pressed < LONG_PRESS ==> up.sink == short_press(track.mode, down.sink)
            &&& color_on_event(down, ButtonEvent::Released, released) == Some(
                state_color(track.mode, up.sink),
            )
        }),
{
}

/// A button that is held has its long press at the first tick after the
/// time of a long press, and once only: the tick forgets the press, so that
/// neither a later tick nor the release is taken for a press again.  The
/// release changes nothing and gives no colour.
pub proof fn lemma_held_button_has_one_long_press(
    track: TrackView,
    pressed: u64,
    tick: u64,
    released: u64,
)
    requires
        track.mode != Mode::FireForget,
        tick - pressed >= LONG_PRESS,
    ensures
        ({
            let down = after_event(track, ButtonEvent::Pressed, pressed);
            let held = after_update(down, tick);
            &&& held.pressed_on is None
            &&& held.sink == long_press(track.mode, track.sink)
            &&& color_on_update(down, tick) == Some(PRESSED_RESET)
            &&& !held.sink.empty
            &&& after_update(held, released) == held
            &&& color_on_update(held, released) is None
            &&& after_event(held, ButtonEvent::Released, released) == held
            &&& color_on_event(held, ButtonEvent::Released, released) is None
        }),
{
}

/// Every press of a `FireForget` button starts a sink of its own, whether
/// the button came up in between or not, and nothing else is asked of the
/// audio side: no sink that was started is held, stopped or replaced.
pub proof fn lemma_fire_forget_presses_overlap(track: TrackView, first: u64, second: u64)
    requires
        track.mode == Mode::FireForget,
    ensures
        ({
            let twice = after_event(
                after_event(track, ButtonEvent::Pressed, first),
                ButtonEvent::Pressed,
                second,
            );
            let between = after_event(
                after_event(track, ButtonEvent::Pressed, first),
                ButtonEvent::Released,
                second,
            );
            &&& twice.sink.commands == track.sink.commands.push(SinkCommand::Spawn).push(
                SinkCommand::Spawn,
            )
            &&& twice.sink.paused == track.sink.paused
            &&& twice.sink.empty == track.sink.empty
            &&& between.sink == track.sink.spawn()
            &&& after_update(track, first) == track
        }),
{
}

/// Whatever happens to a track, the colour that it gives its button is one
/// of the four colours of a track, and sets no bit outside the two pairs of
/// a colour byte.
pub proof fn lemma_colors_of_a_track(track: TrackView, event: ButtonEvent, now: u64)
    ensures
        color_on_event(track, event, now) matches Some(color) ==> (color == PAUSED || color
            == PLAYING || color == PRESSED) && color & 0xcc == 0,
        color_on_update(track, now) matches Some(color) ==> (color == PAUSED || color == PLAYING
            || color == PRESSED_RESET) && color & 0xcc == 0,
{
    assert(PAUSED & 0xcc == 0) by (bit_vector);
    assert(PLAYING & 0xcc == 0) by (bit_vector);
    assert(PRESSED & 0xcc == 0) by (bit_vector);
    assert(PRESSED_RESET & 0xcc == 0) by (bit_vector);
}

/// A track remembers a press from the press until the release or the long
/// press at a tick, and at no other time: an event or a tick leaves a press
/// remembered only if it is a press, or if a press was remembered before.
/// Neither changes the track's mode, name or file.
pub proof fn lemma_press_is_remembered_until_decided(track: TrackView, event: ButtonEvent, now: u64)
    ensures
        after_event(track, ButtonEvent::Pressed, now).pressed_on == Some(now),
        after_event(track, ButtonEvent::Released, now).pressed_on is None,
        after_update(track, now).pressed_on is Some ==> after_update(track, now).pressed_on
            == track.pressed_on,
        after_event(track, event, now).mode == track.mode,
        after_event(track, event, now).looping == track.looping,
        after_event(track, event, now).button_name == track.button_name,
        after_event(track, event, now).file == track.file,
        after_update(track, now).mode == track.mode,
        after_update(track, now).looping == track.looping,
        after_update(track, now).button_name == track.button_name,
        after_update(track, now).file == track.file,
{
}

/// The mode with the given name, if there is one.
pub open spec fn mode_named(name: Seq<char>) -> Option<Mode> {
    if name == "toggle"@ {
        Some(Mode::Toggle)
    } else if name == "fireforget"@ {
        Some(Mode::FireForget)
    } else if name == "fire"@ {
        Some(Mode::Fire)
    } else {
        None
    }
}

impl Mode {
    /// The mode with the given name, if there is one.
    pub fn parse(name: &str) -> (mode: Option<Mode>)
        ensures
            mode == mode_named(name@),
    {
        if same_text(name, "toggle") {
            Some(Mode::Toggle)
        } else if same_text(name, "fireforget") {
            Some(Mode::FireForget)
        } else if same_text(name, "fire") {
            Some(Mode::Fire)
        } else {
            None
        }
    }

    /// The mode with the given name.
    pub fn from(name: &str) -> (mode: Mode)
        requires
            mode_named(name@) is Some,
        ensures
            mode_named(name@) == Some(mode),
    {
        match Mode::parse(name) {
            Some(mode) => mode,
            None => unreached(),
        }
    }
}

/// A file above this size, in bytes, is read through a buffer.
pub const FILE_SIZE_THRESHOLD: u64 = 10 * 1024 * 1024;

/// Whether a file of the given size is to be read through a buffer: a file
/// above the threshold is, and so is any file for which it is asked.
pub fn auto_buffered(file_size: u64, buffered_flag: Option<bool>) -> (buffered: bool)
    ensures
        buffered == (file_size > FILE_SIZE_THRESHOLD || buffered_flag == Some(true)),
{
    let asked = match buffered_flag {
        Some(flag) => flag,
        None => false,
    };
    file_size > FILE_SIZE_THRESHOLD || asked
}

/// Whether a track of the given mode reads its file, of the given size in
/// bytes, through a buffer.  A `Toggle` track never does; the others do for a
/// file above the threshold.
pub fn reads_buffered(mode: Mode, file_size: u64) -> (buffered: bool)
    ensures
        buffered == (mode != Mode::Toggle && file_size > FILE_SIZE_THRESHOLD),
{
    match mode {
        Mode::Toggle => false,
        Mode::Fire => auto_buffered(file_size, None),
        Mode::FireForget => auto_buffered(file_size, None),
    }
}

/// A track of any mode.
pub enum Track {
    Toggle(ToggleTrack),
    Fire(FireTrack),
    FireForget(FireForgetTrack),
}

impl View for Track {
    type V = TrackView;

    open spec fn view(&self) -> TrackView {
        match self {
            Track::Toggle(track) => track@,
            Track::Fire(track) => track@,
            Track::FireForget(track) => track@,
        }
    }
}

/// The track of the given mode as it is made: no press remembered, held.  A
/// `Toggle` track has its sink empty, a `Fire` track has the file at its
/// beginning, and a `FireForget` track has asked nothing of its sink.
pub open spec fn new_track(mode: Mode, button_name: Seq<char>, file: Seq<char>) -> TrackView {
    TrackView {
        mode,
        looping: false,
        button_name,
        file,
        pressed_on: None,
        sink: match mode {
            Mode::Toggle => SinkView::new().pause(),
            Mode::Fire => fire_reset(SinkView::new()),
            Mode::FireForget => SinkView::new(),
        },
    }
}

/// The track that the settings describe, for the button of the given name,
/// with the colour that the button has at first.
pub fn from_config(button_name: String, config: TrackConfig) -> (made: (Track, RGColor))
    requires
        mode_named(config.mode@) is Some,
    ensures
        made.0@ == new_track(mode_named(config.mode@).unwrap(), button_name@, config.path@),
        made.1 == PAUSED,
{
    let mode = Mode::from(config.mode.as_str());
    match mode {
        Mode::Toggle => {
            let (track, initial_color) = ToggleTrack::new(button_name, config.path, false);
            (Track::Toggle(track), initial_color)
        },
        Mode::FireForget => {
            let (track, initial_color) = FireForgetTrack::new(button_name, config.path);
            (Track::FireForget(track), initial_color)
        },
        Mode::Fire => {
            let (track, initial_color) = FireTrack::new(button_name, config.path);
            (Track::Fire(track), initial_color)
        },
    }
}

impl Track {
    /// How the track handles its sound.
    pub fn mode(&self) -> (mode: Mode)
        ensures
            mode == self@.mode,
    {
        match self {
            Track::Toggle(track) => track.mode(),
            Track::Fire(track) => track.mode(),
            Track::FireForget(track) => track.mode(),
        }
    }

    /// The track's sink.
    pub fn sink(&self) -> (sink: &Sink)
        ensures
            sink@ == self@.sink,
    {
        match self {
            Track::Toggle(track) => track.sink(),
            Track::Fire(track) => track.sink(),
            Track::FireForget(track) => track.sink(),
        }
    }

    /// The name of the button that the track was made for.
    pub fn button_name(&self) -> (name: &str)
        ensures
            name@ == self@.button_name,
    {
        match self {
            Track::Toggle(track) => track.button_name(),
            Track::Fire(track) => track.button_name(),
            Track::FireForget(track) => track.button_name(),
        }
    }

    /// The path of the track's file.
    pub fn file(&self) -> (path: &str)
        ensures
            path@ == self@.file,
    {
        match self {
            Track::Toggle(track) => track.file(),
            Track::Fire(track) => track.file(),
            Track::FireForget(track) => track.file(),
        }
    }

    /// When the button went down, if the press still waits to be decided.
    pub fn pressed_on(&self) -> (pressed_on: Option<u64>)
        ensures
            pressed_on == self@.pressed_on,
    {
        match self {
            Track::Toggle(track) => track.pressed_on(),
            Track::Fire(track) => track.pressed_on(),
            Track::FireForget(track) => track.pressed_on(),
        }
    }

    /// Takes note that the audio sink has played what it held to the end.
    pub fn end_of_stream(&mut self)
        ensures
            final(self)@ == (TrackView { sink: old(self)@.sink.end_of_stream(), ..old(self)@ }),
    {
        match self {
            Track::Toggle(track) => track.end_of_stream(),
            Track::Fire(track) => track.end_of_stream(),
            Track::FireForget(track) => track.end_of_stream(),
        }
    }

    /// Hands over the commands that were not carried out yet, oldest first,
    /// and keeps none of them.
    pub fn take_commands(&mut self) -> (commands: Vec<SinkCommand>)
        ensures
            commands@ == old(self)@.sink.commands,
            final(self)@ == (TrackView {
                sink: SinkView { commands: Seq::empty(), ..old(self)@.sink },
                ..old(self)@
            }),
    {
        match self {
            Track::Toggle(track) => track.take_commands(),
            Track::Fire(track) => track.take_commands(),
            Track::FireForget(track) => track.take_commands(),
        }
    }
}

impl EventHandler<ButtonEvent, RGColor> for Track {
    fn on_event(&mut self, event: ButtonEvent, now: u64) -> (color: Option<RGColor>)
        ensures
            final(self)@ == after_event(old(self)@, event, now),
            color == color_on_event(old(self)@, event, now),
    {
        match self {
            Track::Toggle(track) => track.on_event(event, now),
            Track::Fire(track) => track.on_event(event, now),
            Track::FireForget(track) => track.on_event(event, now),
        }
    }

    fn on_update(&mut self, now: u64) -> (color: Option<RGColor>)
        ensures
            final(self)@ == after_update(old(self)@, now),
            color == color_on_update(old(self)@, now),
    {
        match self {
            Track::Toggle(track) => track.on_update(now),
            Track::Fire(track) => track.on_update(now),
            Track::FireForget(track) => track.on_update(now),
        }
    }
}

} // verus!
