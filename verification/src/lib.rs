//! A sound board driven by a grid controller: every button of the controller
//! is bound to a track, and pressing, holding and releasing the button plays,
//! pauses or rewinds that track while the button's LED shows its state.
//!
//! The crate holds the rules only.  It never touches a MIDI port, an audio
//! device, a clock or a file: wire messages, timestamps and end-of-stream
//! reports come in as plain values, LED messages and playback commands go out
//! as plain values, and the program around the crate moves them.

pub mod frame;
pub mod launchpad;
pub mod midi;
pub mod settings;
pub mod sound_board;
pub mod text;
pub mod tracks;
