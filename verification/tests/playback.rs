use noise_player::files::build_tracks;
use noise_player::files::VOLUME_MAX;
use noise_player::player::AudioCommand;
use noise_player::player::ColorTheme;
use noise_player::player::Message;
use noise_player::player::Noise;

fn player_over(names: &[&str]) -> Noise {
    let paths: Vec<String> = names
        .iter()
        .map(|n| format!("assets/sounds/{}.ogg", n))
        .collect();
    Noise::new(build_tracks(&paths))
}

#[test]
fn first_toggle_starts_and_creates_one_handle() {
    let mut p = player_over(&["rain"]);
    assert_eq!(p.handle_count(), 0);
    let cmd = p.toggle(0, false);
    assert!(p.track_is_playing(0));
    assert!(p.is_loaded(0));
    assert_eq!(p.handle_count(), 1);
    assert_eq!(
        cmd,
        AudioCommand::Start {
            index: 0,
            path: String::from("assets/sounds/rain.ogg"),
            volume: 50,
        }
    );
}

#[test]
fn first_toggle_ignores_backend_report() {
    let mut p = player_over(&["rain"]);
    let cmd = p.toggle(0, true);
    assert!(p.track_is_playing(0));
    assert_eq!(p.handle_count(), 1);
    assert!(matches!(cmd, AudioCommand::Start { .. }));
}

#[test]
fn toggle_playing_pauses_then_resumes_same_handle() {
    let mut p = player_over(&["rain"]);
    p.toggle(0, false);
    let cmd = p.toggle(0, true);
    assert!(!p.track_is_playing(0));
    assert_eq!(p.handle_count(), 1);
    assert_eq!(cmd, AudioCommand::Pause { index: 0 });
    let cmd = p.toggle(0, false);
    assert!(p.track_is_playing(0));
    assert_eq!(p.handle_count(), 1);
    assert_eq!(cmd, AudioCommand::Resume { index: 0 });
}

#[test]
fn volume_is_stored_without_a_handle() {
    let mut p = player_over(&["rain"]);
    let cmd = p.set_volume(0, 30);
    assert_eq!(p.track_volume(0), 30);
    assert!(!p.track_is_playing(0));
    assert_eq!(p.handle_count(), 0);
    assert_eq!(cmd, AudioCommand::NoOp);
}

#[test]
fn volume_reaches_the_backend_with_a_handle() {
    let mut p = player_over(&["rain"]);
    p.toggle(0, false);
    let cmd = p.set_volume(0, 75);
    assert_eq!(p.track_volume(0), 75);
    assert!(p.track_is_playing(0));
    assert_eq!(cmd, AudioCommand::SetVolume { index: 0, level: 75 });
}

#[test]
fn volume_setting_is_idempotent() {
    let mut p = player_over(&["rain", "wind"]);
    p.toggle(1, false);
    let first = p.set_volume(1, 40);
    let volume_after_first = p.track_volume(1);
    let playing_after_first = p.track_is_playing(1);
    let handles_after_first = p.handle_count();
    let second = p.set_volume(1, 40);
    assert_eq!(p.track_volume(1), volume_after_first);
    assert_eq!(p.track_is_playing(1), playing_after_first);
    assert_eq!(p.handle_count(), handles_after_first);
    assert_eq!(second, first);
}

#[test]
fn volume_bounds_are_accepted_exactly() {
    let mut p = player_over(&["rain"]);
    p.set_volume(0, 0);
    assert_eq!(p.track_volume(0), 0);
    p.set_volume(0, VOLUME_MAX);
    assert_eq!(p.track_volume(0), VOLUME_MAX);
}

#[test]
fn scenario_rain_and_wind() {
    let mut p = player_over(&["rain", "wind"]);
    assert_eq!(p.track_count(), 2);
    assert_eq!(p.track_name(0), "rain");
    assert_eq!(p.track_name(1), "wind");

    p.toggle(0, false);
    assert!(p.track_is_playing(0));
    assert_eq!(p.handle_count(), 1);

    p.toggle(0, true);
    assert!(!p.track_is_playing(0));
    assert_eq!(p.handle_count(), 1);

    p.set_volume(1, 30);
    assert_eq!(p.track_volume(1), 30);
    assert!(!p.is_loaded(1));
    assert_eq!(p.handle_count(), 1);
}

#[test]
fn update_dispatches_play() {
    let mut p = player_over(&["rain"]);
    let cmd = p.update(Message::Play { index: 0, backend_playing: false });
    assert!(matches!(cmd, AudioCommand::Start { .. }));
    assert!(p.track_is_playing(0));
}

#[test]
fn update_dispatches_volume() {
    let mut p = player_over(&["rain"]);
    let cmd = p.update(Message::VolumeChanged { index: 0, level: 10 });
    assert_eq!(p.track_volume(0), 10);
    assert_eq!(cmd, AudioCommand::NoOp);
}

#[test]
fn theme_cycles_and_leaves_playback_alone() {
    let mut p = player_over(&["rain"]);
    assert_eq!(p.theme(), ColorTheme::TokyoNightStorm);
    let cmd = p.update(Message::Theme);
    assert_eq!(cmd, AudioCommand::NoOp);
    assert_eq!(p.theme(), ColorTheme::Nord);
    assert_eq!(p.handle_count(), 0);
    assert!(!p.track_is_playing(0));
    p.cycle_theme();
    assert_eq!(p.theme(), ColorTheme::TokyoNightStorm);
}

#[test]
fn independent_tracks_do_not_interfere() {
    let mut p = player_over(&["rain", "wind", "fire"]);
    p.toggle(1, false);
    assert!(!p.track_is_playing(0));
    assert!(p.track_is_playing(1));
    assert!(!p.track_is_playing(2));
    assert!(!p.is_loaded(0));
    assert!(p.is_loaded(1));
    assert!(!p.is_loaded(2));
    assert_eq!(p.handle_count(), 1);
    p.toggle(2, false);
    assert_eq!(p.handle_count(), 2);
    assert!(p.track_is_playing(2));
    assert!(p.track_is_playing(1));
}

#[test]
fn window_title() {
    let p = player_over(&[]);
    assert_eq!(p.title(), "Noise");
}
