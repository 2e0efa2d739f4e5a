//! The settings of a session, as the program reads them from its
//! configuration.

use vstd::prelude::*;
use std::collections::HashMap;

verus! {

/// The number of frames in a second where the settings name none.
pub const DEFAULT_FPS: u8 = 60;

/// The settings of a session.
#[derive(Debug)]
pub struct Settings {
    /// How many frames the board runs in a second.
    pub fps: u8,
    /// The bindings, by name.
    pub bindings: HashMap<String, BindingConfig>,
    /// The tracks, by the name of the button that each is bound to.
    pub tracks: HashMap<String, TrackConfig>,
}

/// The settings of a binding.
#[derive(Debug)]
pub struct BindingConfig {
    pub binding: String,
}

/// The settings of a track.
#[derive(Debug)]
pub struct TrackConfig {
    /// The path of the track's file.
    pub path: String,
    /// The name of the track's mode.
    pub mode: String,
}

} // verus!
