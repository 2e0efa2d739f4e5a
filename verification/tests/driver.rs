use sound_board::launchpad::launchpad_mini::{
    LaunchpadMini, LaunchpadMiniButton, MidiMessage, CONTROL_CHANGE, NOTE_OFF, NOTE_ON, STARTUP_COLOR,
};
use sound_board::launchpad::{Button, ButtonEvent, Launchpad};

fn message(status: u8, data1: u8, data2: u8) -> MidiMessage {
    MidiMessage { status, data1, data2, data3: 0 }
}

fn started() -> LaunchpadMini {
    let mut launchpad = LaunchpadMini::new();
    launchpad.take_outgoing();
    launchpad
}

#[test]
fn an_led_is_set_by_a_note_on_or_a_control_change() {
    assert_eq!(NOTE_ON, 0x90);
    assert_eq!(NOTE_OFF, 0x80);
    assert_eq!(CONTROL_CHANGE, 0xb0);
    assert_eq!(
        LaunchpadMini::led_on_message(&LaunchpadMiniButton::NoteButton(0x24), 0x33),
        MidiMessage { status: 0x90, data1: 0x24, data2: 0x33, data3: 0 }
    );
    assert_eq!(
        LaunchpadMini::led_on_message(&LaunchpadMiniButton::ControlButton(104), 0x20),
        MidiMessage { status: 0xb0, data1: 104, data2: 0x20, data3: 0 }
    );
}

#[test]
fn an_led_is_reset_by_a_note_off_or_a_control_change_of_zero() {
    assert_eq!(
        LaunchpadMini::led_reset_message(&LaunchpadMiniButton::NoteButton(0x77)),
        MidiMessage { status: 0x80, data1: 0x77, data2: 0, data3: 0 }
    );
    assert_eq!(
        LaunchpadMini::led_reset_message(&LaunchpadMiniButton::ControlButton(111)),
        MidiMessage { status: 0xb0, data1: 111, data2: 0, data3: 0 }
    );
    assert_eq!(
        LaunchpadMini::led_reset_all_message(),
        MidiMessage { status: 0xb0, data1: 0, data2: 0, data3: 0 }
    );
}

#[test]
fn velocity_tells_a_press_from_a_release() {
    assert_eq!(
        LaunchpadMini::event_from_message(&message(0x90, 0x12, 127)),
        (LaunchpadMiniButton::NoteButton(0x12), ButtonEvent::Pressed)
    );
    assert_eq!(
        LaunchpadMini::event_from_message(&message(0x90, 0x12, 0)),
        (LaunchpadMiniButton::NoteButton(0x12), ButtonEvent::Released)
    );
    assert_eq!(
        LaunchpadMini::event_from_message(&message(0xb0, 105, 127)),
        (LaunchpadMiniButton::ControlButton(105), ButtonEvent::Pressed)
    );
    assert_eq!(
        LaunchpadMini::event_from_message(&message(0xb0, 105, 0)),
        (LaunchpadMiniButton::ControlButton(105), ButtonEvent::Released)
    );
    assert_eq!(
        LaunchpadMiniButton::from(&message(0x90, 0x08, 127)),
        LaunchpadMiniButton::NoteButton(0x08)
    );
    assert_eq!(
        LaunchpadMiniButton::from(&message(0xb0, 0x08, 127)),
        LaunchpadMiniButton::ControlButton(0x08)
    );
}

#[test]
fn only_presses_and_releases_are_event_messages() {
    assert!(LaunchpadMini::is_event_message(&message(0x90, 0, 127)));
    assert!(LaunchpadMini::is_event_message(&message(0x90, 0, 0)));
    assert!(LaunchpadMini::is_event_message(&message(0xb0, 104, 127)));
    assert!(LaunchpadMini::is_event_message(&message(0xb0, 104, 0)));
    assert!(!LaunchpadMini::is_event_message(&message(0x90, 0, 1)));
    assert!(!LaunchpadMini::is_event_message(&message(0x90, 0, 126)));
    assert!(!LaunchpadMini::is_event_message(&message(0x90, 0, 128)));
    assert!(!LaunchpadMini::is_event_message(&message(0x80, 0, 0)));
    assert!(!LaunchpadMini::is_event_message(&message(0x91, 0, 127)));
    assert!(!LaunchpadMini::is_event_message(&message(0xf0, 0, 127)));
}

#[test]
fn a_new_driver_lights_every_led_and_then_turns_all_off() {
    let mut launchpad = LaunchpadMini::new();
    let messages = launchpad.take_outgoing();
    assert_eq!(messages.len(), 81);
    for id in 0..80usize {
        let button = LaunchpadMiniButton::from_id(id).unwrap();
        assert_eq!(messages[id], LaunchpadMini::led_on_message(&button, STARTUP_COLOR));
        assert_eq!(messages[id].data2, 0x30);
    }
    assert_eq!(messages[80], LaunchpadMini::led_reset_all_message());
    assert!(launchpad.take_outgoing().is_empty());
    assert_eq!(launchpad.poll(), Ok(vec![]));
}

#[test]
fn set_all_has_one_message_for_every_button() {
    let mut launchpad = started();
    assert_eq!(launchpad.set_all(0x12), Ok(()));
    let messages = launchpad.take_outgoing();
    assert_eq!(messages.len(), 80);
    assert_eq!(messages[0], message(0x90, 0x00, 0x12));
    assert_eq!(messages[8], message(0x90, 0x08, 0x12));
    assert_eq!(messages[9], message(0x90, 0x10, 0x12));
    assert_eq!(messages[34], message(0x90, 0x37, 0x12));
    assert_eq!(messages[35], message(0x90, 0x38, 0x12));
    assert_eq!(messages[71], message(0x90, 0x78, 0x12));
    assert_eq!(messages[72], message(0xb0, 104, 0x12));
    assert_eq!(messages[79], message(0xb0, 111, 0x12));
    let mut codes: Vec<(u8, u8)> = Vec::new();
    for sent in messages.iter() {
        assert_eq!(sent.data2, 0x12);
        assert!(!codes.contains(&(sent.status, sent.data1)));
        codes.push((sent.status, sent.data1));
    }
}

#[test]
fn reset_all_is_one_message() {
    let mut launchpad = started();
    assert_eq!(launchpad.reset_all(), Ok(()));
    assert_eq!(launchpad.take_outgoing(), vec![message(0xb0, 0, 0)]);
}

#[test]
fn requests_wait_in_their_order_until_they_are_taken() {
    let mut launchpad = started();
    let a1 = LaunchpadMiniButton::NoteButton(0x00);
    let o3 = LaunchpadMiniButton::ControlButton(106);
    assert_eq!(launchpad.set_led(&a1, 0x33), Ok(()));
    assert_eq!(launchpad.reset_led(&a1), Ok(()));
    assert_eq!(launchpad.set_led(&o3, 0x02), Ok(()));
    assert_eq!(launchpad.reset_led(&o3), Ok(()));
    assert_eq!(
        launchpad.take_outgoing(),
        vec![message(0x90, 0x00, 0x33), message(0x80, 0x00, 0), message(0xb0, 106, 0x02), message(0xb0, 106, 0)]
    );
    assert_eq!(launchpad.take_outgoing(), vec![]);
}

#[test]
fn poll_hands_over_the_events_in_the_order_of_their_arrival() {
    let mut launchpad = started();
    launchpad.receive(&message(0x90, 0x11, 127));
    launchpad.receive(&message(0xb0, 104, 127));
    launchpad.receive(&message(0x90, 0x11, 0));
    assert_eq!(
        launchpad.poll(),
        Ok(vec![
            (LaunchpadMiniButton::NoteButton(0x11), ButtonEvent::Pressed),
            (LaunchpadMiniButton::ControlButton(104), ButtonEvent::Pressed),
            (LaunchpadMiniButton::NoteButton(0x11), ButtonEvent::Released),
        ])
    );
    assert_eq!(launchpad.poll(), Ok(vec![]));
    launchpad.receive(&message(0xb0, 104, 0));
    assert_eq!(launchpad.poll(), Ok(vec![(LaunchpadMiniButton::ControlButton(104), ButtonEvent::Released)]));
    assert!(launchpad.take_outgoing().is_empty());
}
