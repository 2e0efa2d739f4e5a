//! Finding the controller among the MIDI devices of the machine.

use vstd::prelude::*;
use crate::text::{contains, occurs_in};

verus! {

/// The direction in which a MIDI device carries messages.
#[derive(Clone, Copy, Debug, PartialEq, Eq, Structural)]
pub enum Direction {
    /// The program reads from the device.
    Input,
    /// The program writes to the device.
    Output,
}

/// What the machine tells of a MIDI device.
#[derive(Debug)]
pub struct DeviceInfo {
    /// The number under which the device is opened.
    pub id: i32,
    /// The name of the device.
    pub name: String,
    /// The direction of the device.
    pub direction: Direction,
}

impl DeviceInfo {
    /// Whether the program reads from the device.
    pub fn is_input(&self) -> (input: bool)
        ensures
            input == (self.direction == Direction::Input),
    {
        match self.direction {
            Direction::Input => true,
            Direction::Output => false,
        }
    }

    /// Whether the program writes to the device.
    pub fn is_output(&self) -> (output: bool)
        ensures
            output == (self.direction == Direction::Output),
    {
        match self.direction {
            Direction::Input => false,
            Direction::Output => true,
        }
    }
}

/// Whether a device has the given direction and a name that holds `name`.
pub open spec fn is_match(device: DeviceInfo, name: Seq<char>, direction: Direction) -> bool {
    occurs_in(name, device.name@) && device.direction == direction
}

/// The id of the last device in the list that has the given direction and a
/// name that holds `name`, if there is such a device.
pub open spec fn last_match(devices: Seq<DeviceInfo>, name: Seq<char>, direction: Direction) -> Option<
    i32,
>
    decreases devices.len(),
{
    if devices.len() == 0 {
        None
    } else if is_match(devices.last(), name, direction) {
        Some(devices.last().id)
    } else {
        last_match(devices.drop_last(), name, direction)
    }
}

/// The ids of the input device and of the output device whose names hold
/// `name`: of the last such device in the list, where there are several.
pub fn find_device_with_name(devices: &Vec<DeviceInfo>, name: &str) -> (ids: (
    Option<i32>,
    Option<i32>,
))
    ensures
        ids.0 == last_match(devices@, name@, Direction::Input),
        ids.1 == last_match(devices@, name@, Direction::Output),
{
    let mut rx_id: Option<i32> = None;
    let mut tx_id: Option<i32> = None;
    let mut seen: usize = 0;
    while seen < devices.len()
        invariant
            seen <= devices.len(),
            rx_id == last_match(devices@.take(seen as int), name@, Direction::Input),
            tx_id == last_match(devices@.take(seen as int), name@, Direction::Output),
        decreases devices.len() - seen,
    {
        let device = &devices[seen];
        proof {
            assert(devices@.take(seen + 1).drop_last() =~= devices@.take(seen as int));
        }
        if contains(device.name.as_str(), name) && device.is_input() {
            rx_id = Some(device.id);
        }
        if contains(device.name.as_str(), name) && device.is_output() {
            tx_id = Some(device.id);
        }
        seen += 1;
    }
    proof {
        assert(devices@.take(seen as int) =~= devices@);
    }
    (rx_id, tx_id)
}

} // verus!
