use sound_board::frame::{frame_duration, pace, Pace};
use sound_board::midi::{find_device_with_name, DeviceInfo, Direction};
use sound_board::settings::{BindingConfig, Settings, TrackConfig};
use sound_board::text::{contains, same_text, starts_at};
use std::collections::HashMap;

fn device(id: i32, name: &str, direction: Direction) -> DeviceInfo {
    DeviceInfo { id, name: name.to_string(), direction }
}

#[test]
fn the_controller_is_found_as_an_input_and_as_an_output() {
    let devices = vec![
        device(0, "Midi Through Port-0", Direction::Output),
        device(1, "Midi Through Port-0", Direction::Input),
        device(2, "Launchpad Mini MIDI 1", Direction::Output),
        device(3, "Launchpad Mini MIDI 1", Direction::Input),
    ];
    assert_eq!(find_device_with_name(&devices, "Launchpad Mini"), (Some(3), Some(2)));
    assert_eq!(find_device_with_name(&devices, "Midi"), (Some(1), Some(0)));
    assert_eq!(find_device_with_name(&devices, "MIDI"), (Some(3), Some(2)));
}

#[test]
fn the_last_device_of_a_name_is_the_one_found() {
    let devices = vec![
        device(7, "Launchpad Mini", Direction::Input),
        device(8, "Launchpad Mini", Direction::Output),
        device(9, "Launchpad Mini 2", Direction::Input),
        device(-4, "A Launchpad Mini", Direction::Output),
        device(11, "Launchpad", Direction::Input),
    ];
    assert_eq!(find_device_with_name(&devices, "Launchpad Mini"), (Some(9), Some(-4)));
    assert_eq!(find_device_with_name(&devices, "Launchpad"), (Some(11), Some(-4)));
    assert_eq!(find_device_with_name(&devices, ""), (Some(11), Some(-4)));
}

#[test]
fn a_device_that_is_missing_in_one_direction_is_not_found_in_it() {
    let devices = vec![device(5, "Launchpad Mini", Direction::Input)];
    assert_eq!(find_device_with_name(&devices, "Launchpad Mini"), (Some(5), None));
    assert_eq!(find_device_with_name(&devices, "Launchpad Pro"), (None, None));
    assert_eq!(find_device_with_name(&Vec::new(), "Launchpad Mini"), (None, None));
    assert!(devices[0].is_input());
    assert!(!devices[0].is_output());
}

#[test]
fn a_text_holds_its_parts() {
    assert!(contains("Launchpad Mini MIDI 1", "Launchpad Mini"));
    assert!(contains("Launchpad Mini MIDI 1", "MIDI 1"));
    assert!(contains("Launchpad Mini MIDI 1", "d M"));
    assert!(contains("Launchpad Mini MIDI 1", ""));
    assert!(contains("", ""));
    assert!(contains("abc", "abc"));
    assert!(!contains("abc", "abcd"));
    assert!(!contains("", "a"));
    assert!(!contains("Launchpad Mini", "launchpad"));
    assert!(!contains("aab", "aba"));
    assert!(contains("aaab", "aab"));
    assert!(contains("grüße", "üß"));
    assert!(starts_at("abc", "xabc", 1));
    assert!(!starts_at("abc", "xabc", 0));
    assert!(!starts_at("abc", "xabc", 2));
    assert!(!starts_at("abc", "xabc", usize::MAX));
    assert!(starts_at("", "xabc", 4));
    assert!(!starts_at("", "xabc", 5));
    assert!(same_text("fire", "fire"));
    assert!(!same_text("fire", "fireforget"));
    assert!(!same_text("fire", "fir"));
    assert!(!same_text("fire", "firE"));
    assert!(same_text("", ""));
}

#[test]
fn a_frame_lasts_a_thousand_milliseconds_by_the_frames_in_a_second() {
    assert_eq!(frame_duration(60), 16);
    assert_eq!(frame_duration(1), 1000);
    assert_eq!(frame_duration(30), 33);
    assert_eq!(frame_duration(255), 3);
    assert_eq!(frame_duration(100), 10);
}

#[test]
fn the_loop_sleeps_for_the_rest_of_the_frame_and_then_runs() {
    assert_eq!(pace(0, 16), Pace::Sleep(16));
    assert_eq!(pace(10, 16), Pace::Sleep(6));
    assert_eq!(pace(15, 16), Pace::Sleep(1));
    assert_eq!(pace(16, 16), Pace::Run);
    assert_eq!(pace(17, 16), Pace::Run);
    assert_eq!(pace(5000, 16), Pace::Run);
    assert_eq!(pace(0, 0), Pace::Run);
    assert_eq!(pace(u64::MAX, u64::MAX), Pace::Run);
    assert_eq!(pace(0, u64::MAX), Pace::Sleep(u64::MAX));
}

#[test]
fn settings_hold_what_was_read() {
    let mut tracks: HashMap<String, TrackConfig> = HashMap::new();
    tracks.insert("a1".to_string(), TrackConfig { path: "a.ogg".to_string(), mode: "toggle".to_string() });
    let mut bindings: HashMap<String, BindingConfig> = HashMap::new();
    bindings.insert("stop".to_string(), BindingConfig { binding: "o8".to_string() });
    let settings = Settings { fps: 60, bindings, tracks };
    assert_eq!(settings.fps, 60);
    assert_eq!(settings.tracks["a1"].path, "a.ogg");
    assert_eq!(settings.tracks["a1"].mode, "toggle");
    assert_eq!(settings.bindings["stop"].binding, "o8");
}
