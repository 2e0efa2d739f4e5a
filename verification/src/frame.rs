//! The pace of the frames.

use vstd::prelude::*;

verus! {

/// What the loop around the board does next.
#[derive(Clone, Copy, Debug, PartialEq, Eq, Structural)]
pub enum Pace {
    /// Wait for so many milliseconds, then look at the clock again.
    Sleep(u64),
    /// Run a frame now, and count the time from now.
    Run,
}

/// The length of a frame in milliseconds, for so many frames in a second.
pub fn frame_duration(fps: u8) -> (millis: u64)
    requires
        fps > 0,
    ensures
        millis == 1000int / (fps as int),
{
    1000 / (fps as u64)
}

/// What the loop does when `elapsed` milliseconds have gone by since the
/// last frame began: it waits for the rest of the frame's length while the
/// length has not gone by, and runs the next frame as soon as it has.
pub fn pace(elapsed: u64, frame_duration: u64) -> (next: Pace)
    ensures
        next == (if elapsed < frame_duration {
            Pace::Sleep((frame_duration - elapsed) as u64)
        } else {
            Pace::Run
        }),
{
    if elapsed < frame_duration {
        Pace::Sleep(frame_duration - elapsed)
    } else {
        Pace::Run
    }
}

} // verus!
