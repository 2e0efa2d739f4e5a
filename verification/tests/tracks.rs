use sound_board::launchpad::ButtonEvent;
use sound_board::settings::TrackConfig;
use sound_board::sound_board::EventHandler;
use sound_board::tracks::fire::FireTrack;
use sound_board::tracks::fire_and_forget::{FireForgetTrack, DEFAULT};
use sound_board::tracks::sink::{Sink, SinkCommand};
use sound_board::tracks::toggle::ToggleTrack;
use sound_board::tracks::{
    auto_buffered, from_config, Mode, Track, FILE_SIZE_THRESHOLD, LONG_PRESS, PAUSED, PLAYING, PRESSED,
    PRESSED_RESET,
};

fn toggle(looping: bool) -> ToggleTrack {
    let (mut track, color) = ToggleTrack::new("a1".to_string(), "a.ogg".to_string(), looping);
    assert_eq!(color, PAUSED);
    assert_eq!(track.take_commands(), vec![SinkCommand::Pause]);
    track
}

fn fire() -> FireTrack {
    let (mut track, color) = FireTrack::new("b2".to_string(), "b.ogg".to_string());
    assert_eq!(color, PAUSED);
    assert_eq!(track.take_commands(), vec![SinkCommand::Pause, SinkCommand::Append]);
    track
}

fn fire_forget() -> FireForgetTrack {
    let (mut track, color) = FireForgetTrack::new("c3".to_string(), "c.ogg".to_string());
    assert_eq!(color, DEFAULT);
    assert_eq!(track.take_commands(), vec![]);
    track
}

fn count(commands: &Vec<SinkCommand>, command: SinkCommand) -> usize {
    commands.iter().filter(|c| **c == command).count()
}

#[test]
fn a_new_sink_plays_and_holds_nothing() {
    let mut sink = Sink::new();
    assert!(!sink.is_paused());
    assert!(sink.empty());
    assert_eq!(sink.take_commands(), vec![]);
}

#[test]
fn a_sink_keeps_its_commands_in_their_order() {
    let mut sink = Sink::new();
    sink.pause();
    assert!(sink.is_paused());
    sink.append();
    assert!(!sink.empty());
    sink.play();
    assert!(!sink.is_paused());
    sink.end_of_stream();
    assert!(sink.empty());
    assert!(!sink.is_paused());
    sink.pause();
    sink.recreate();
    assert!(sink.empty());
    assert!(!sink.is_paused());
    sink.spawn();
    assert_eq!(
        sink.take_commands(),
        vec![
            SinkCommand::Pause,
            SinkCommand::Append,
            SinkCommand::Play,
            SinkCommand::Pause,
            SinkCommand::Recreate,
            SinkCommand::Spawn
        ]
    );
    assert_eq!(sink.take_commands(), vec![]);
    assert!(sink.empty());
}

#[test]
fn toggle_short_press_plays() {
    let mut track = toggle(false);
    assert!(track.sink().is_paused());
    assert_eq!(track.on_event(ButtonEvent::Pressed, 0), Some(PRESSED));
    assert_eq!(track.pressed_on(), Some(0));
    assert!(track.sink().is_paused());
    assert_eq!(track.take_commands(), vec![]);
    assert_eq!(track.on_event(ButtonEvent::Released, 200), Some(PLAYING));
    assert_eq!(track.pressed_on(), None);
    assert!(!track.sink().is_paused());
    assert!(!track.sink().empty());
    assert_eq!(track.take_commands(), vec![SinkCommand::Append, SinkCommand::Play]);
}

#[test]
fn toggle_short_press_holds_what_plays() {
    let mut track = toggle(false);
    track.on_event(ButtonEvent::Pressed, 0);
    track.on_event(ButtonEvent::Released, 200);
    track.take_commands();
    assert_eq!(track.on_event(ButtonEvent::Pressed, 5000), Some(PRESSED));
    assert_eq!(track.on_event(ButtonEvent::Released, 5300), Some(PAUSED));
    assert!(track.sink().is_paused());
    assert!(!track.sink().empty());
    assert_eq!(track.take_commands(), vec![SinkCommand::Pause]);
    assert_eq!(track.on_event(ButtonEvent::Pressed, 6000), Some(PRESSED));
    assert_eq!(track.on_event(ButtonEvent::Released, 6100), Some(PLAYING));
    assert_eq!(track.take_commands(), vec![SinkCommand::Play]);
}

#[test]
fn toggle_long_press_rewinds_once_and_holds() {
    let mut track = toggle(false);
    track.on_event(ButtonEvent::Pressed, 0);
    track.on_event(ButtonEvent::Released, 200);
    track.take_commands();
    assert_eq!(track.on_event(ButtonEvent::Pressed, 10_000), Some(PRESSED));
    assert_eq!(track.on_event(ButtonEvent::Released, 11_200), Some(PAUSED));
    assert_eq!(track.pressed_on(), None);
    assert!(track.sink().is_paused());
    assert!(!track.sink().empty());
    let commands = track.take_commands();
    assert_eq!(
        commands,
        vec![SinkCommand::Pause, SinkCommand::Recreate, SinkCommand::Pause, SinkCommand::Append]
    );
    assert_eq!(count(&commands, SinkCommand::Append), 1);
    assert_eq!(count(&commands, SinkCommand::Recreate), 1);
    assert_eq!(count(&commands, SinkCommand::Play), 0);
}

#[test]
fn toggle_long_press_on_an_empty_sink_does_not_replace_the_sink() {
    let mut track = toggle(false);
    assert_eq!(track.on_event(ButtonEvent::Pressed, 0), Some(PRESSED));
    assert_eq!(track.on_event(ButtonEvent::Released, 1200), Some(PAUSED));
    assert!(track.sink().is_paused());
    assert!(!track.sink().empty());
    assert_eq!(track.take_commands(), vec![SinkCommand::Pause, SinkCommand::Append]);
}

#[test]
fn a_press_is_long_from_a_thousand_milliseconds_on() {
    assert_eq!(LONG_PRESS, 1000);
    let mut short = toggle(false);
    short.on_event(ButtonEvent::Pressed, 500);
    assert_eq!(short.on_event(ButtonEvent::Released, 1499), Some(PLAYING));
    let mut long = toggle(false);
    long.on_event(ButtonEvent::Pressed, 500);
    assert_eq!(long.on_event(ButtonEvent::Released, 1500), Some(PAUSED));
    let mut not_yet = toggle(false);
    not_yet.on_event(ButtonEvent::Pressed, 500);
    assert_eq!(not_yet.on_update(1499), None);
    assert_eq!(not_yet.pressed_on(), Some(500));
    assert_eq!(not_yet.on_update(1500), Some(PRESSED_RESET));
    assert_eq!(not_yet.pressed_on(), None);
}

#[test]
fn a_release_before_the_time_of_the_press_is_a_short_press() {
    let mut track = toggle(false);
    track.on_event(ButtonEvent::Pressed, 5000);
    assert_eq!(track.on_update(10), None);
    assert_eq!(track.on_event(ButtonEvent::Released, 10), Some(PLAYING));
    let mut late = toggle(false);
    late.on_event(ButtonEvent::Pressed, u64::MAX);
    assert_eq!(late.on_update(0), None);
    assert_eq!(late.on_event(ButtonEvent::Released, 0), Some(PLAYING));
    let mut early = toggle(false);
    early.on_event(ButtonEvent::Pressed, 0);
    assert_eq!(early.on_event(ButtonEvent::Released, u64::MAX), Some(PAUSED));
}

#[test]
fn holding_the_button_rewinds_at_the_tick_and_the_release_is_passed_over() {
    let mut track = toggle(false);
    track.on_event(ButtonEvent::Pressed, 0);
    track.on_event(ButtonEvent::Released, 100);
    track.take_commands();
    assert_eq!(track.on_event(ButtonEvent::Pressed, 20_000), Some(PRESSED));
    assert_eq!(track.on_update(20_500), None);
    assert_eq!(track.take_commands(), vec![]);
    assert_eq!(track.on_update(21_100), Some(PRESSED_RESET));
    assert_eq!(track.pressed_on(), None);
    let commands = track.take_commands();
    assert_eq!(
        commands,
        vec![SinkCommand::Pause, SinkCommand::Recreate, SinkCommand::Pause, SinkCommand::Append]
    );
    assert_eq!(count(&commands, SinkCommand::Append), 1);
    assert_eq!(track.on_update(21_200), None);
    assert_eq!(track.on_event(ButtonEvent::Released, 21_500), None);
    assert_eq!(track.take_commands(), vec![]);
    assert!(track.sink().is_paused());
    assert!(!track.sink().empty());
    assert_eq!(track.pressed_on(), None);
}

#[test]
fn a_button_held_from_zero_is_rewound_at_the_tick_and_once_only() {
    let mut track = toggle(false);
    assert_eq!(track.on_event(ButtonEvent::Pressed, 0), Some(PRESSED));
    assert_eq!(track.on_update(1100), Some(PRESSED_RESET));
    let commands = track.take_commands();
    assert_eq!(commands, vec![SinkCommand::Pause, SinkCommand::Append]);
    assert_eq!(count(&commands, SinkCommand::Append), 1);
    assert_eq!(track.on_event(ButtonEvent::Released, 1500), None);
    assert_eq!(track.take_commands(), vec![]);
    assert_eq!(track.pressed_on(), None);
    assert!(track.sink().is_paused());
}

#[test]
fn a_release_without_a_press_is_passed_over() {
    let mut a = toggle(false);
    assert_eq!(a.on_event(ButtonEvent::Released, 10), None);
    assert_eq!(a.take_commands(), vec![]);
    assert!(a.sink().is_paused());
    let mut b = fire();
    assert_eq!(b.on_event(ButtonEvent::Released, 10), None);
    assert_eq!(b.take_commands(), vec![]);
    let mut c = fire_forget();
    assert_eq!(c.on_event(ButtonEvent::Released, 10), None);
    assert_eq!(c.take_commands(), vec![]);
}

#[test]
fn a_toggle_track_that_has_run_empty_is_rewound_and_held() {
    let mut track = toggle(false);
    track.on_event(ButtonEvent::Pressed, 0);
    track.on_event(ButtonEvent::Released, 200);
    track.take_commands();
    assert_eq!(track.on_update(1000), None);
    track.end_of_stream();
    assert!(track.sink().empty());
    assert_eq!(track.on_update(2500), Some(PAUSED));
    assert!(track.sink().is_paused());
    assert!(!track.sink().empty());
    assert_eq!(track.take_commands(), vec![SinkCommand::Pause, SinkCommand::Append]);
    assert_eq!(track.on_update(2600), None);
}

#[test]
fn a_looping_toggle_track_that_has_run_empty_starts_over() {
    let mut track = toggle(true);
    track.on_event(ButtonEvent::Pressed, 0);
    track.on_event(ButtonEvent::Released, 200);
    track.take_commands();
    track.end_of_stream();
    assert_eq!(track.on_update(2500), Some(PLAYING));
    assert!(!track.sink().is_paused());
    assert!(!track.sink().empty());
    assert_eq!(track.take_commands(), vec![SinkCommand::Append, SinkCommand::Play]);
}

#[test]
fn a_new_toggle_track_is_loaded_at_the_first_tick() {
    let mut track = toggle(false);
    assert!(track.sink().empty());
    assert_eq!(track.on_update(0), Some(PAUSED));
    assert!(!track.sink().empty());
    assert!(track.sink().is_paused());
    assert_eq!(track.take_commands(), vec![SinkCommand::Pause, SinkCommand::Append]);
    assert_eq!(track.on_update(16), None);
}

#[test]
fn an_empty_sink_is_left_alone_while_the_button_is_down() {
    let mut track = toggle(false);
    track.on_event(ButtonEvent::Pressed, 0);
    assert!(track.sink().empty());
    assert_eq!(track.on_update(16), None);
    assert_eq!(track.on_update(999), None);
    assert_eq!(track.take_commands(), vec![]);
    let mut other = fire();
    other.end_of_stream();
    other.on_event(ButtonEvent::Pressed, 0);
    assert_eq!(other.on_update(16), None);
    assert_eq!(other.take_commands(), vec![]);
}

#[test]
fn a_short_press_on_a_playing_track_that_has_run_empty_rewinds_and_holds() {
    let mut track = toggle(false);
    track.on_event(ButtonEvent::Pressed, 0);
    track.on_event(ButtonEvent::Released, 200);
    track.take_commands();
    track.on_event(ButtonEvent::Pressed, 3000);
    track.end_of_stream();
    assert_eq!(track.on_update(3100), None);
    assert_eq!(track.on_event(ButtonEvent::Released, 3200), Some(PAUSED));
    assert!(track.sink().is_paused());
    assert!(!track.sink().empty());
    assert_eq!(track.take_commands(), vec![SinkCommand::Append, SinkCommand::Pause]);
}

#[test]
fn fire_short_press_plays_from_the_beginning() {
    let mut track = fire();
    assert!(track.sink().is_paused());
    assert!(!track.sink().empty());
    assert_eq!(track.on_event(ButtonEvent::Pressed, 0), Some(PRESSED));
    assert_eq!(track.take_commands(), vec![]);
    assert_eq!(track.on_event(ButtonEvent::Released, 300), Some(PLAYING));
    assert!(!track.sink().is_paused());
    assert_eq!(
        track.take_commands(),
        vec![SinkCommand::Recreate, SinkCommand::Pause, SinkCommand::Append, SinkCommand::Play]
    );
    assert_eq!(track.on_event(ButtonEvent::Pressed, 400), Some(PRESSED));
    assert_eq!(track.on_event(ButtonEvent::Released, 500), Some(PLAYING));
    assert_eq!(
        track.take_commands(),
        vec![SinkCommand::Recreate, SinkCommand::Pause, SinkCommand::Append, SinkCommand::Play]
    );
}

#[test]
fn fire_long_press_rewinds_and_does_not_play() {
    let mut track = fire();
    track.on_event(ButtonEvent::Pressed, 0);
    track.on_event(ButtonEvent::Released, 300);
    track.take_commands();
    assert_eq!(track.on_event(ButtonEvent::Pressed, 1000), Some(PRESSED));
    assert_eq!(track.on_event(ButtonEvent::Released, 2000), Some(PAUSED));
    assert!(track.sink().is_paused());
    assert!(!track.sink().empty());
    assert_eq!(track.take_commands(), vec![SinkCommand::Recreate, SinkCommand::Pause, SinkCommand::Append]);
}

#[test]
fn holding_the_button_of_a_fire_track_rewinds_at_the_tick() {
    let mut track = fire();
    track.on_event(ButtonEvent::Pressed, 0);
    assert_eq!(track.on_update(999), None);
    assert_eq!(track.on_update(1000), Some(PRESSED_RESET));
    assert_eq!(track.take_commands(), vec![SinkCommand::Recreate, SinkCommand::Pause, SinkCommand::Append]);
    assert_eq!(track.on_event(ButtonEvent::Released, 1500), None);
    assert_eq!(track.take_commands(), vec![]);
    assert!(track.sink().is_paused());
}

#[test]
fn a_fire_track_that_has_run_empty_is_rewound_and_held() {
    let mut track = fire();
    track.on_event(ButtonEvent::Pressed, 0);
    track.on_event(ButtonEvent::Released, 300);
    track.take_commands();
    assert_eq!(track.on_update(400), None);
    track.end_of_stream();
    assert_eq!(track.on_update(3000), Some(PAUSED));
    assert!(track.sink().is_paused());
    assert!(!track.sink().empty());
    assert_eq!(track.take_commands(), vec![SinkCommand::Pause, SinkCommand::Append]);
    assert_eq!(track.on_update(3016), None);
}

#[test]
fn every_press_of_a_fire_forget_track_starts_a_sink_of_its_own() {
    let mut track = fire_forget();
    assert_eq!(track.on_event(ButtonEvent::Pressed, 0), Some(PRESSED));
    assert_eq!(track.on_event(ButtonEvent::Pressed, 10), Some(PRESSED));
    let commands = track.take_commands();
    assert_eq!(commands, vec![SinkCommand::Spawn, SinkCommand::Spawn]);
    assert_eq!(count(&commands, SinkCommand::Recreate), 0);
    assert_eq!(count(&commands, SinkCommand::Pause), 0);
    assert_eq!(track.on_event(ButtonEvent::Released, 20), Some(DEFAULT));
    assert_eq!(track.on_event(ButtonEvent::Released, 30), None);
    assert_eq!(track.take_commands(), vec![]);
}

#[test]
fn a_fire_forget_track_does_nothing_at_a_tick_and_nothing_more_at_a_long_press() {
    let mut track = fire_forget();
    assert_eq!(track.on_update(0), None);
    assert_eq!(track.on_event(ButtonEvent::Pressed, 100), Some(PRESSED));
    assert_eq!(track.take_commands(), vec![SinkCommand::Spawn]);
    assert_eq!(track.on_update(5000), None);
    assert_eq!(track.pressed_on(), Some(100));
    track.end_of_stream();
    assert_eq!(track.on_update(6000), None);
    assert_eq!(track.on_event(ButtonEvent::Released, 7000), Some(DEFAULT));
    assert_eq!(track.pressed_on(), None);
    assert_eq!(track.take_commands(), vec![]);
}

#[test]
fn a_second_press_moves_the_time_of_the_press() {
    let mut track = toggle(false);
    track.on_event(ButtonEvent::Pressed, 0);
    track.on_event(ButtonEvent::Pressed, 900);
    assert_eq!(track.pressed_on(), Some(900));
    assert_eq!(track.on_update(1500), None);
    assert_eq!(track.on_event(ButtonEvent::Released, 1800), Some(PLAYING));
}

#[test]
fn a_track_keeps_its_name_and_its_file() {
    let track = toggle(true);
    assert_eq!(track.button_name(), "a1");
    assert_eq!(track.file(), "a.ogg");
    assert_eq!(track.mode(), Mode::Toggle);
    let track = fire();
    assert_eq!(track.button_name(), "b2");
    assert_eq!(track.file(), "b.ogg");
    assert_eq!(track.mode(), Mode::Fire);
    let track = fire_forget();
    assert_eq!(track.button_name(), "c3");
    assert_eq!(track.file(), "c.ogg");
    assert_eq!(track.mode(), Mode::FireForget);
}

#[test]
fn modes_have_their_names() {
    assert_eq!(Mode::parse("toggle"), Some(Mode::Toggle));
    assert_eq!(Mode::parse("fireforget"), Some(Mode::FireForget));
    assert_eq!(Mode::parse("fire"), Some(Mode::Fire));
    assert_eq!(Mode::from("toggle"), Mode::Toggle);
    assert_eq!(Mode::from("fireforget"), Mode::FireForget);
    assert_eq!(Mode::from("fire"), Mode::Fire);
    for name in ["", "Toggle", "fire ", "fir", "fireforge", "fireforgets", "hold", "loop", "togglefire"] {
        assert_eq!(Mode::parse(name), None);
    }
}

#[test]
fn a_track_is_made_as_its_settings_say() {
    let config = TrackConfig { path: "x.wav".to_string(), mode: "toggle".to_string() };
    let (mut track, color) = from_config("a1".to_string(), config);
    assert_eq!(color, PAUSED);
    assert_eq!(track.mode(), Mode::Toggle);
    assert!(matches!(track, Track::Toggle(_)));
    assert_eq!(track.button_name(), "a1");
    assert_eq!(track.file(), "x.wav");
    assert_eq!(track.pressed_on(), None);
    assert!(track.sink().is_paused());
    assert!(track.sink().empty());
    assert_eq!(track.take_commands(), vec![SinkCommand::Pause]);

    let config = TrackConfig { path: "y.wav".to_string(), mode: "fire".to_string() };
    let (mut track, color) = from_config("b1".to_string(), config);
    assert_eq!(color, PAUSED);
    assert_eq!(track.mode(), Mode::Fire);
    assert!(matches!(track, Track::Fire(_)));
    assert!(track.sink().is_paused());
    assert!(!track.sink().empty());
    assert_eq!(track.take_commands(), vec![SinkCommand::Pause, SinkCommand::Append]);

    let config = TrackConfig { path: "z.wav".to_string(), mode: "fireforget".to_string() };
    let (mut track, color) = from_config("c1".to_string(), config);
    assert_eq!(color, DEFAULT);
    assert_eq!(track.mode(), Mode::FireForget);
    assert!(matches!(track, Track::FireForget(_)));
    assert_eq!(track.file(), "z.wav");
    assert_eq!(track.take_commands(), vec![]);
}

#[test]
fn a_track_of_any_mode_handles_events_as_its_mode_does() {
    let config = TrackConfig { path: "y.wav".to_string(), mode: "fire".to_string() };
    let (mut track, _) = from_config("b1".to_string(), config);
    track.take_commands();
    assert_eq!(track.on_event(ButtonEvent::Pressed, 0), Some(PRESSED));
    assert_eq!(track.on_event(ButtonEvent::Released, 10), Some(PLAYING));
    assert_eq!(
        track.take_commands(),
        vec![SinkCommand::Recreate, SinkCommand::Pause, SinkCommand::Append, SinkCommand::Play]
    );
    track.end_of_stream();
    assert_eq!(track.on_update(20), Some(PAUSED));

    let config = TrackConfig { path: "z.wav".to_string(), mode: "fireforget".to_string() };
    let (mut track, _) = from_config("c1".to_string(), config);
    assert_eq!(track.on_event(ButtonEvent::Pressed, 0), Some(PRESSED));
    assert_eq!(track.on_update(2000), None);
    assert_eq!(track.on_event(ButtonEvent::Released, 2001), Some(DEFAULT));
    assert_eq!(track.take_commands(), vec![SinkCommand::Spawn]);

    let config = TrackConfig { path: "x.wav".to_string(), mode: "toggle".to_string() };
    let (mut track, _) = from_config("a1".to_string(), config);
    track.take_commands();
    assert_eq!(track.on_event(ButtonEvent::Pressed, 0), Some(PRESSED));
    assert_eq!(track.on_update(1000), Some(PRESSED_RESET));
    assert_eq!(track.on_event(ButtonEvent::Released, 1001), None);
    assert_eq!(track.take_commands(), vec![SinkCommand::Pause, SinkCommand::Append]);
}

#[test]
fn a_file_above_ten_mebibytes_is_buffered() {
    assert_eq!(FILE_SIZE_THRESHOLD, 10_485_760);
    assert!(!auto_buffered(0, None));
    assert!(!auto_buffered(10_485_760, None));
    assert!(auto_buffered(10_485_761, None));
    assert!(auto_buffered(u64::MAX, None));
    assert!(auto_buffered(0, Some(true)));
    assert!(!auto_buffered(0, Some(false)));
    assert!(auto_buffered(10_485_761, Some(false)));
    assert!(auto_buffered(10_485_761, Some(true)));
}
