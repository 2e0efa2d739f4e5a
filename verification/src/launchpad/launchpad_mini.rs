//! The Launchpad Mini: an eight by eight grid of pads, a round button at the
//! end of every row and a row of eight round buttons above the grid.

use vstd::prelude::*;
use crate::launchpad::{Button, ButtonEvent, Launchpad};
use crate::launchpad::colors::{rg_color, RGColor};
use crate::launchpad::error::Error;

verus! {

/// A button of the Launchpad Mini by the code that the device sends for it:
/// the pads and the round buttons at the row ends send notes, the round
/// buttons above the grid send control changes.
#[derive(Debug, Copy, Clone, Eq, PartialEq, Hash, Structural)]
pub enum LaunchpadMiniButton {
    NoteButton(u8),
    ControlButton(u8),
}

/// The code of the first round button above the grid.
pub const FIRST_CONTROL: u8 = 104;

/// The letter that names the pads of a row.
pub open spec fn row_letter(row: int) -> char {
    ('a' as int + row) as char
}

/// The letter that names the round button at the end of a row.
pub open spec fn row_end_letter(row: int) -> char {
    ('A' as int + row) as char
}

/// The digit that names a column, and a round button above the grid.
pub open spec fn column_digit(column: int) -> char {
    ('1' as int + column) as char
}

/// The offset, within the sixteen note codes of a row, of the round button at
/// the row's end.  It is 8, but in row `d` the table has the round button at
/// 7 and the eighth pad at 8.
pub open spec fn row_end_offset(row: int) -> int {
    if row == 3 {
        7
    } else {
        8
    }
}

/// The offset, within the sixteen note codes of a row, of the pad in the
/// given column.
pub open spec fn pad_offset(row: int, column: int) -> int {
    if column == 7 && row == 3 {
        8
    } else {
        column
    }
}

/// The column of the pad at the given offset of a row, the offset not being
/// that of the row's round button.
pub open spec fn pad_column(offset: int) -> int {
    if offset == 8 {
        7
    } else {
        offset
    }
}

/// The button that two characters name, if they name one.
pub open spec fn button_named(first: char, second: char) -> Option<LaunchpadMiniButton> {
    if first == 'o' && '1' <= second <= '8' {
        Some(LaunchpadMiniButton::ControlButton((FIRST_CONTROL + (second as int - '1' as int)) as u8))
    } else if first == 'o' && 'A' <= second <= 'H' {
        let row = second as int - 'A' as int;
        Some(LaunchpadMiniButton::NoteButton((16 * row + row_end_offset(row)) as u8))
    } else if 'a' <= first <= 'h' && '1' <= second <= '8' {
        let row = first as int - 'a' as int;
        let column = second as int - '1' as int;
        Some(LaunchpadMiniButton::NoteButton((16 * row + pad_offset(row, column)) as u8))
    } else {
        None
    }
}

impl Button for LaunchpadMiniButton {
    open spec fn is_button(&self) -> bool {
        match *self {
            LaunchpadMiniButton::NoteButton(code) => code / 16 <= 7 && code % 16 <= 8,
            LaunchpadMiniButton::ControlButton(code) => FIRST_CONTROL <= code < FIRST_CONTROL + 8,
        }
    }

    open spec fn name(&self) -> Seq<char> {
        match *self {
            LaunchpadMiniButton::NoteButton(code) => {
                let row = code as int / 16;
                let offset = code as int % 16;
                if offset == row_end_offset(row) {
                    seq!['o', row_end_letter(row)]
                } else {
                    seq![row_letter(row), column_digit(pad_column(offset))]
                }
            },
            LaunchpadMiniButton::ControlButton(code) => seq![
                'o',
                column_digit(code - FIRST_CONTROL),
            ],
        }
    }

    open spec fn position(&self) -> nat {
        match *self {
            LaunchpadMiniButton::NoteButton(code) => ((code / 16) * 9 + code % 16) as nat,
            LaunchpadMiniButton::ControlButton(code) => (72 + code - FIRST_CONTROL) as nat,
        }
    }

    open spec fn named(name: Seq<char>) -> Option<Self> {
        if name.len() == 2 {
            button_named(name[0], name[1])
        } else {
            None
        }
    }

    open spec fn at(position: nat) -> Self {
        if position < 72 {
            LaunchpadMiniButton::NoteButton((16 * (position / 9) + position % 9) as u8)
        } else {
            LaunchpadMiniButton::ControlButton((FIRST_CONTROL + position - 72) as u8)
        }
    }

    proof fn lemma_at_position(position: nat) {
    }

    proof fn lemma_named_finds_name(&self) {
    }

    proof fn lemma_name_of_named(name: Seq<char>) {
    }

    proof fn lemma_position_identifies(&self, other: &Self) {
    }

    proof fn lemma_position_of_button(&self) {
    }

    fn is_valid(&self) -> (valid: bool) {
        match *self {
            LaunchpadMiniButton::NoteButton(code) => code / 16 <= 7 && code % 16 <= 8,
            LaunchpadMiniButton::ControlButton(code) => FIRST_CONTROL <= code && code < FIRST_CONTROL + 8,
        }
    }

    fn to_str(&self) -> (name: &str) {
        proof {
            reveal_strlit("o1");
            reveal_strlit("o2");
            reveal_strlit("o3");
            reveal_strlit("o4");
            reveal_strlit("o5");
            reveal_strlit("o6");
            reveal_strlit("o7");
            reveal_strlit("o8");
            reveal_strlit("a1");
            reveal_strlit("a2");
            reveal_strlit("a3");
            reveal_strlit("a4");
            reveal_strlit("a5");
            reveal_strlit("a6");
            reveal_strlit("a7");
            reveal_strlit("a8");
            reveal_strlit("oA");
            reveal_strlit("b1");
            reveal_strlit("b2");
            reveal_strlit("b3");
            reveal_strlit("b4");
            reveal_strlit("b5");
            reveal_strlit("b6");
            reveal_strlit("b7");
            reveal_strlit("b8");
            reveal_strlit("oB");
            reveal_strlit("c1");
            reveal_strlit("c2");
            reveal_strlit("c3");
            reveal_strlit("c4");
            reveal_strlit("c5");
            reveal_strlit("c6");
            reveal_strlit("c7");
            reveal_strlit("c8");
            reveal_strlit("oC");
            reveal_strlit("d1");
            reveal_strlit("d2");
            reveal_strlit("d3");
            reveal_strlit("d4");
            reveal_strlit("d5");
            reveal_strlit("d6");
            reveal_strlit("d7");
            reveal_strlit("oD");
            reveal_strlit("d8");
            reveal_strlit("e1");
            reveal_strlit("e2");
            reveal_strlit("e3");
            reveal_strlit("e4");
            reveal_strlit("e5");
            reveal_strlit("e6");
            reveal_strlit("e7");
            reveal_strlit("e8");
            reveal_strlit("oE");
            reveal_strlit("f1");
            reveal_strlit("f2");
            reveal_strlit("f3");
            reveal_strlit("f4");
            reveal_strlit("f5");
            reveal_strlit("f6");
            reveal_strlit("f7");
            reveal_strlit("f8");
            reveal_strlit("oF");
            reveal_strlit("g1");
            reveal_strlit("g2");
            reveal_strlit("g3");
            reveal_strlit("g4");
            reveal_strlit("g5");
            reveal_strlit("g6");
            reveal_strlit("g7");
            reveal_strlit("g8");
            reveal_strlit("oG");
            reveal_strlit("h1");
            reveal_strlit("h2");
            reveal_strlit("h3");
            reveal_strlit("h4");
            reveal_strlit("h5");
            reveal_strlit("h6");
            reveal_strlit("h7");
            reveal_strlit("h8");
            reveal_strlit("oH");
        }
        match *self {
            LaunchpadMiniButton::ControlButton(104) => "o1",
            LaunchpadMiniButton::ControlButton(105) => "o2",
            LaunchpadMiniButton::ControlButton(106) => "o3",
            LaunchpadMiniButton::ControlButton(107) => "o4",
            LaunchpadMiniButton::ControlButton(108) => "o5",
            LaunchpadMiniButton::ControlButton(109) => "o6",
            LaunchpadMiniButton::ControlButton(110) => "o7",
            LaunchpadMiniButton::ControlButton(111) => "o8",
            LaunchpadMiniButton::NoteButton(0x00) => "a1",
            LaunchpadMiniButton::NoteButton(0x01) => "a2",
            LaunchpadMiniButton::NoteButton(0x02) => "a3",
            LaunchpadMiniButton::NoteButton(0x03) => "a4",
            LaunchpadMiniButton::NoteButton(0x04) => "a5",
            LaunchpadMiniButton::NoteButton(0x05) => "a6",
            LaunchpadMiniButton::NoteButton(0x06) => "a7",
            LaunchpadMiniButton::NoteButton(0x07) => "a8",
            LaunchpadMiniButton::NoteButton(0x08) => "oA",
            LaunchpadMiniButton::NoteButton(0x10) => "b1",
            LaunchpadMiniButton::NoteButton(0x11) => "b2",
            LaunchpadMiniButton::NoteButton(0x12) => "b3",
            LaunchpadMiniButton::NoteButton(0x13) => "b4",
            LaunchpadMiniButton::NoteButton(0x14) => "b5",
            LaunchpadMiniButton::NoteButton(0x15) => "b6",
            LaunchpadMiniButton::NoteButton(0x16) => "b7",
            LaunchpadMiniButton::NoteButton(0x17) => "b8",
            LaunchpadMiniButton::NoteButton(0x18) => "oB",
            LaunchpadMiniButton::NoteButton(0x20) => "c1",
            LaunchpadMiniButton::NoteButton(0x21) => "c2",
            LaunchpadMiniButton::NoteButton(0x22) => "c3",
            LaunchpadMiniButton::NoteButton(0x23) => "c4",
            LaunchpadMiniButton::NoteButton(0x24) => "c5",
            LaunchpadMiniButton::NoteButton(0x25) => "c6",
            LaunchpadMiniButton::NoteButton(0x26) => "c7",
            LaunchpadMiniButton::NoteButton(0x27) => "c8",
            LaunchpadMiniButton::NoteButton(0x28) => "oC",
            LaunchpadMiniButton::NoteButton(0x30) => "d1",
            LaunchpadMiniButton::NoteButton(0x31) => "d2",
            LaunchpadMiniButton::NoteButton(0x32) => "d3",
            LaunchpadMiniButton::NoteButton(0x33) => "d4",
            LaunchpadMiniButton::NoteButton(0x34) => "d5",
            LaunchpadMiniButton::NoteButton(0x35) => "d6",
            LaunchpadMiniButton::NoteButton(0x36) => "d7",
            LaunchpadMiniButton::NoteButton(0x37) => "oD",
            LaunchpadMiniButton::NoteButton(0x38) => "d8",
            LaunchpadMiniButton::NoteButton(0x40) => "e1",
            LaunchpadMiniButton::NoteButton(0x41) => "e2",
            LaunchpadMiniButton::NoteButton(0x42) => "e3",
            LaunchpadMiniButton::NoteButton(0x43) => "e4",
            LaunchpadMiniButton::NoteButton(0x44) => "e5",
            LaunchpadMiniButton::NoteButton(0x45) => "e6",
            LaunchpadMiniButton::NoteButton(0x46) => "e7",
            LaunchpadMiniButton::NoteButton(0x47) => "e8",
            LaunchpadMiniButton::NoteButton(0x48) => "oE",
            LaunchpadMiniButton::NoteButton(0x50) => "f1",
            LaunchpadMiniButton::NoteButton(0x51) => "f2",
            LaunchpadMiniButton::NoteButton(0x52) => "f3",
            LaunchpadMiniButton::NoteButton(0x53) => "f4",
            LaunchpadMiniButton::NoteButton(0x54) => "f5",
            LaunchpadMiniButton::NoteButton(0x55) => "f6",
            LaunchpadMiniButton::NoteButton(0x56) => "f7",
            LaunchpadMiniButton::NoteButton(0x57) => "f8",
            LaunchpadMiniButton::NoteButton(0x58) => "oF",
            LaunchpadMiniButton::NoteButton(0x60) => "g1",
            LaunchpadMiniButton::NoteButton(0x61) => "g2",
            LaunchpadMiniButton::NoteButton(0x62) => "g3",
            LaunchpadMiniButton::NoteButton(0x63) => "g4",
            LaunchpadMiniButton::NoteButton(0x64) => "g5",
            LaunchpadMiniButton::NoteButton(0x65) => "g6",
            LaunchpadMiniButton::NoteButton(0x66) => "g7",
            LaunchpadMiniButton::NoteButton(0x67) => "g8",
            LaunchpadMiniButton::NoteButton(0x68) => "oG",
            LaunchpadMiniButton::NoteButton(0x70) => "h1",
            LaunchpadMiniButton::NoteButton(0x71) => "h2",
            LaunchpadMiniButton::NoteButton(0x72) => "h3",
            LaunchpadMiniButton::NoteButton(0x73) => "h4",
            LaunchpadMiniButton::NoteButton(0x74) => "h5",
            LaunchpadMiniButton::NoteButton(0x75) => "h6",
            LaunchpadMiniButton::NoteButton(0x76) => "h7",
            LaunchpadMiniButton::NoteButton(0x77) => "h8",
            LaunchpadMiniButton::NoteButton(0x78) => "oH",
            _ => unreached(),
        }
    }

    fn from_str(name: &str) -> (button: Result<Self, Error>) {
        if name.unicode_len() == 2 {
            let first = name.get_char(0);
            let second = name.get_char(1);
            if first == 'o' && '1' <= second && second <= '8' {
                let column: u8 = second as u8 - '1' as u8;
                return Ok(LaunchpadMiniButton::ControlButton(FIRST_CONTROL + column));
            }
            if first == 'o' && 'A' <= second && second <= 'H' {
                let row: u8 = second as u8 - 'A' as u8;
                let offset: u8 = if row == 3 { 7 } else { 8 };
                return Ok(LaunchpadMiniButton::NoteButton(16 * row + offset));
            }
            if 'a' <= first && first <= 'h' && '1' <= second && second <= '8' {
                let row: u8 = first as u8 - 'a' as u8;
                let column: u8 = second as u8 - '1' as u8;
                let offset: u8 = if column == 7 && row == 3 { 8 } else { column };
                return Ok(LaunchpadMiniButton::NoteButton(16 * row + offset));
            }
        }
        Err(Error::UnknownButtonError(name.to_owned()))
    }

    fn to_id(&self) -> (id: usize) {
        match *self {
            LaunchpadMiniButton::NoteButton(code) => (code / 16) as usize * 9 + (code % 16) as usize,
            LaunchpadMiniButton::ControlButton(code) => 72 + (code - FIRST_CONTROL) as usize,
        }
    }

    fn from_id(id: usize) -> (button: Result<Self, Error>) {
        if id < 72 {
            let row: u8 = (id / 9) as u8;
            let offset: u8 = (id % 9) as u8;
            Ok(LaunchpadMiniButton::NoteButton(16 * row + offset))
        } else if id < 80 {
            Ok(LaunchpadMiniButton::ControlButton(FIRST_CONTROL + (id - 72) as u8))
        } else {
            Err(Error::IllegalButtonIdError(id))
        }
    }

    const TOTAL: usize = 80;
}

/// A MIDI message as it travels between the program and the device.
#[derive(Clone, Copy, PartialEq, Eq, Debug, Structural)]
pub struct MidiMessage {
    pub status: u8,
    pub data1: u8,
    pub data2: u8,
    pub data3: u8,
}

/// The status byte of a note-on message.
pub const NOTE_ON: u8 = 0x90;

/// The status byte of a note-off message.
pub const NOTE_OFF: u8 = 0x80;

/// The status byte of a control-change message.
pub const CONTROL_CHANGE: u8 = 0xb0;

/// The velocity that the device sends when a button goes down.
pub const VELOCITY_PRESSED: u8 = 127;

/// The velocity that the device sends when a button comes up.
pub const VELOCITY_RELEASED: u8 = 0;

/// The colour that every LED shows while the driver starts.
pub const STARTUP_COLOR: RGColor = 0x30;

/// The startup colour is full green.
pub proof fn lemma_startup_color()
    ensures
        STARTUP_COLOR == rg_color(0, 3),
{
}

/// The message that sets the LED of a button to a colour.
pub open spec fn led_on(button: LaunchpadMiniButton, color: RGColor) -> MidiMessage {
    match button {
        LaunchpadMiniButton::ControlButton(code) => MidiMessage {
            status: CONTROL_CHANGE,
            data1: code,
            data2: color,
            data3: 0,
        },
        LaunchpadMiniButton::NoteButton(code) => MidiMessage {
            status: NOTE_ON,
            data1: code,
            data2: color,
            data3: 0,
        },
    }
}

/// The message that turns the LED of a button off.
pub open spec fn led_off(button: LaunchpadMiniButton) -> MidiMessage {
    match button {
        LaunchpadMiniButton::ControlButton(code) => MidiMessage {
            status: CONTROL_CHANGE,
            data1: code,
            data2: 0,
            data3: 0,
        },
        LaunchpadMiniButton::NoteButton(code) => MidiMessage {
            status: NOTE_OFF,
            data1: code,
            data2: 0,
            data3: 0,
        },
    }
}

/// The message that turns every LED off at once.
pub open spec fn led_off_all() -> MidiMessage {
    MidiMessage { status: CONTROL_CHANGE, data1: 0, data2: 0, data3: 0 }
}

/// The messages that set the LED of every button to a colour, one message
/// for each button, in the order of the buttons' positions.
pub open spec fn led_on_all(color: RGColor) -> Seq<MidiMessage> {
    Seq::new(
        LaunchpadMiniButton::TOTAL as nat,
        |position: int| led_on(LaunchpadMiniButton::at(position as nat), color),
    )
}

/// Whether a message from the device tells of a button going down or coming
/// up: a note-on or a control change with velocity 127 or 0.
pub open spec fn is_button_event(message: MidiMessage) -> bool {
    &&& message.status == CONTROL_CHANGE || message.status == NOTE_ON
    &&& message.data2 == VELOCITY_PRESSED || message.data2 == VELOCITY_RELEASED
}

/// The button that a message from the device is about.
pub open spec fn button_of(message: MidiMessage) -> LaunchpadMiniButton {
    if message.status == CONTROL_CHANGE {
        LaunchpadMiniButton::ControlButton(message.data1)
    } else {
        LaunchpadMiniButton::NoteButton(message.data1)
    }
}

/// The button and the event that a message from the device tells of.
pub open spec fn button_event(message: MidiMessage) -> (LaunchpadMiniButton, ButtonEvent) {
    (
        button_of(message),
        if message.data2 == VELOCITY_PRESSED {
            ButtonEvent::Pressed
        } else {
            ButtonEvent::Released
        },
    )
}

impl LaunchpadMiniButton {
    /// The button that a message from the device is about.  The message is a
    /// note-on or a control change.
    pub fn from(msg: &MidiMessage) -> (button: Self)
        requires
            msg.status == CONTROL_CHANGE || msg.status == NOTE_ON,
        ensures
            button == button_of(*msg),
    {
        if msg.status == CONTROL_CHANGE {
            LaunchpadMiniButton::ControlButton(msg.data1)
        } else {
            LaunchpadMiniButton::NoteButton(msg.data1)
        }
    }
}

/// The driver of a Launchpad Mini.  It turns requests into the messages that
/// the device understands and the device's messages into button events, and
/// holds both until they are collected: the messages to send until
/// `take_outgoing`, the events until `poll`.  Moving messages between the
/// driver and the MIDI ports is left to the program.
pub struct LaunchpadMini {
    rx: Vec<(LaunchpadMiniButton, ButtonEvent)>,
    tx: Vec<MidiMessage>,
}

impl LaunchpadMini {
    /// The events that have come in and were not polled yet, oldest first.
    pub closed spec fn pending(&self) -> Seq<(LaunchpadMiniButton, ButtonEvent)> {
        self.rx@
    }

    /// The messages that wait to be sent, oldest first.
    pub closed spec fn outgoing(&self) -> Seq<MidiMessage> {
        self.tx@
    }

    /// A driver at the start of a session.  To clear what an earlier session
    /// left on the device, it first lights every LED in the startup colour
    /// and then turns all of them off: these messages wait to be sent.  The
    /// program should send all but the last, drop what the device had
    /// buffered, and then send the last.
    pub fn new() -> (launchpad: LaunchpadMini)
        ensures
            launchpad.outgoing() == led_on_all(STARTUP_COLOR).push(led_off_all()),
            launchpad.pending() == Seq::<(LaunchpadMiniButton, ButtonEvent)>::empty(),
    {
        let mut launchpad = LaunchpadMini { rx: Vec::new(), tx: Vec::new() };
        launchpad.for_all(STARTUP_COLOR);
        launchpad.rx.clear();
        launchpad.tx.push(Self::led_reset_all_message());
        launchpad
    }

    /// Queues, for every button in the order of the positions, the message
    /// that sets its LED to `color`.
    fn for_all(&mut self, color: RGColor)
        ensures
            final(self).outgoing() == old(self).outgoing() + led_on_all(color),
            final(self).pending() == old(self).pending(),
    {
        let mut id: usize = 0;
        while id < LaunchpadMiniButton::TOTAL
            invariant
                id <= LaunchpadMiniButton::TOTAL,
                self.rx@ == old(self).rx@,
                self.tx@ == old(self).tx@ + led_on_all(color).take(id as int),
            decreases LaunchpadMiniButton::TOTAL - id,
        {
            if let Ok(button) = LaunchpadMiniButton::from_id(id) {
                self.tx.push(Self::led_on_message(&button, color));
            }
            id += 1;
        }
    }

    /// Takes in a message that the device has sent.
    pub fn receive(&mut self, message: &MidiMessage)
        requires
            is_button_event(*message),
        ensures
            final(self).pending() == old(self).pending().push(button_event(*message)),
            final(self).outgoing() == old(self).outgoing(),
    {
        self.rx.push(Self::event_from_message(message));
    }

    /// Hands over the messages that wait to be sent, oldest first, and keeps
    /// none of them.
    pub fn take_outgoing(&mut self) -> (messages: Vec<MidiMessage>)
        ensures
            messages@ == old(self).outgoing(),
            final(self).outgoing() == Seq::<MidiMessage>::empty(),
            final(self).pending() == old(self).pending(),
    {
        let mut messages: Vec<MidiMessage> = Vec::new();
        std::mem::swap(&mut self.tx, &mut messages);
        messages
    }

    /// Whether a message from the device tells of a button going down or
    /// coming up.  The device sends no other message; one that fails this
    /// test shows a fault of the device or of the transport.
    pub fn is_event_message(msg: &MidiMessage) -> (ok: bool)
        ensures
            ok == is_button_event(*msg),
    {
        (msg.status == CONTROL_CHANGE || msg.status == NOTE_ON) && (msg.data2 == VELOCITY_PRESSED
            || msg.data2 == VELOCITY_RELEASED)
    }

    /// The message that sets the LED of a button to a colour: a control
    /// change for a round button above the grid, a note-on for any other.
    #[inline]
    pub fn led_on_message(button: &LaunchpadMiniButton, color: RGColor) -> (message: MidiMessage)
        ensures
            message == led_on(*button, color),
    {
        match button {
            LaunchpadMiniButton::ControlButton(code) => MidiMessage {
                status: CONTROL_CHANGE,
                data1: *code,
                data2: color,
                data3: 0,
            },
            LaunchpadMiniButton::NoteButton(code) => MidiMessage {
                status: NOTE_ON,
                data1: *code,
                data2: color,
                data3: 0,
            },
        }
    }

    /// The message that turns the LED of a button off: a control change with
    /// value 0 for a round button above the grid, a note-off for any other.
    #[inline]
    pub fn led_reset_message(button: &LaunchpadMiniButton) -> (message: MidiMessage)
        ensures
            message == led_off(*button),
    {
        match button {
            LaunchpadMiniButton::ControlButton(code) => MidiMessage {
                status: CONTROL_CHANGE,
                data1: *code,
                data2: 0,
                data3: 0,
            },
            LaunchpadMiniButton::NoteButton(code) => MidiMessage {
                status: NOTE_OFF,
                data1: *code,
                data2: 0,
                data3: 0,
            },
        }
    }

    /// The message that turns every LED off at once.
    #[inline]
    pub fn led_reset_all_message() -> (message: MidiMessage)
        ensures
            message == led_off_all(),
    {
        MidiMessage { status: CONTROL_CHANGE, data1: 0, data2: 0, data3: 0 }
    }

    /// The button and the event that a message from the device tells of:
    /// velocity 127 is a press, velocity 0 a release.
    pub fn event_from_message(msg: &MidiMessage) -> (event: (LaunchpadMiniButton, ButtonEvent))
        requires
            is_button_event(*msg),
        ensures
            event == button_event(*msg),
    {
        let button = LaunchpadMiniButton::from(msg);
        let event = if msg.data2 == VELOCITY_PRESSED {
            ButtonEvent::Pressed
        } else {
            ButtonEvent::Released
        };
        (button, event)
    }
}

impl Launchpad for LaunchpadMini {
    type But = LaunchpadMiniButton;

    type Col = RGColor;

    /// Queues the message that sets the LED.  Never fails.
    fn set_led(&mut self, button: &LaunchpadMiniButton, color: RGColor) -> (done: Result<(), Error>)
        ensures
            done is Ok,
            final(self).outgoing() == old(self).outgoing().push(led_on(*button, color)),
            final(self).pending() == old(self).pending(),
    {
        self.tx.push(Self::led_on_message(button, color));
        Ok(())
    }

    /// Queues the message that turns the LED off.  Never fails.
    fn reset_led(&mut self, button: &LaunchpadMiniButton) -> (done: Result<(), Error>)
        ensures
            done is Ok,
            final(self).outgoing() == old(self).outgoing().push(led_off(*button)),
            final(self).pending() == old(self).pending(),
    {
        self.tx.push(Self::led_reset_message(button));
        Ok(())
    }

    /// Queues one message for each button, in the order of the positions.
    /// Never fails.
    fn set_all(&mut self, color: RGColor) -> (done: Result<(), Error>)
        ensures
            done is Ok,
            final(self).outgoing() == old(self).outgoing() + led_on_all(color),
            final(self).pending() == old(self).pending(),
    {
        self.for_all(color);
        Ok(())
    }

    /// Queues the one message that turns every LED off.  Never fails.
    fn reset_all(&mut self) -> (done: Result<(), Error>)
        ensures
            done is Ok,
            final(self).outgoing() == old(self).outgoing().push(led_off_all()),
            final(self).pending() == old(self).pending(),
    {
        self.tx.push(Self::led_reset_all_message());
        Ok(())
    }

    /// Hands over the events that have come in since the last call, oldest
    /// first, and keeps none of them.  Never fails.
    fn poll(&mut self) -> (events: Result<Vec<(LaunchpadMiniButton, ButtonEvent)>, Error>)
        ensures
            events is Ok,
            events.unwrap()@ == old(self).pending(),
            final(self).pending() == Seq::<(LaunchpadMiniButton, ButtonEvent)>::empty(),
            final(self).outgoing() == old(self).outgoing(),
    {
        let mut events: Vec<(LaunchpadMiniButton, ButtonEvent)> = Vec::new();
        std::mem::swap(&mut self.rx, &mut events);
        Ok(events)
    }
}

} // verus!
