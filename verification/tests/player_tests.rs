use cozy_player::event::{AtomicEvent, AudioEvent};
use cozy_player::player::{
    format_sample_time, pad_start, AudioController, PlayState, PlayerProps, SharedAudioBuffer,
    DEFAULT_SPEED, DEFAULT_VOLUME, EVENT_QUEUE_SIZE,
};
use cozy_player::resample::CURSOR_ONE;

fn stereo_buffer(rate: u32, samples: usize) -> SharedAudioBuffer {
    let channel: Vec<u32> = (0..samples).map(|i| (i as f32).to_bits()).collect();
    SharedAudioBuffer {
        sample_rate: rate,
        channels: vec![channel.clone(), channel],
    }
}

#[test]
fn default_props_match_documented_values() {
    let p = PlayerProps::default();
    assert_eq!(p.sample_rate, 44_100);
    assert_eq!(p.play_state, PlayState::Stopped);
    assert_eq!(p.position, 0);
    assert_eq!(p.volume, DEFAULT_VOLUME);
    assert_eq!(p.playback_speed, DEFAULT_SPEED);
    assert_eq!(DEFAULT_VOLUME, 0.4f32.to_bits());
    let speed = DEFAULT_SPEED as f64 / CURSOR_ONE as f64;
    assert!((speed - 0.97).abs() < 1e-9);
}

#[test]
fn stop_resets_position_and_state() {
    let mut c = AudioController::new(44_100);
    c.load_buffer(stereo_buffer(48_000, 4));
    c.on_atomic_event(AtomicEvent::Play);
    c.store_position(3 * CURSOR_ONE);
    assert_eq!(c.get_song_position(), 3 * CURSOR_ONE);
    assert!(c.get_is_playing());
    c.on_atomic_event(AtomicEvent::Stop);
    assert_eq!(c.get_song_position(), 0);
    assert!(!c.get_is_playing());
    let snap = c.serialize_props();
    assert!(!snap.is_playing);
    assert_eq!(snap.position, 0);
    assert_eq!(snap.volume, DEFAULT_VOLUME);
    assert_eq!(snap.playback_speed, DEFAULT_SPEED);
}

#[test]
fn volume_round_trip() {
    let mut c = AudioController::new(44_100);
    for v in [0.0f32, 0.4, 0.73, 1.0, 2.5] {
        c.on_atomic_event(AtomicEvent::SetVolume(v.to_bits()));
        assert_eq!(c.get_volume(), v.to_bits());
        assert_eq!(c.serialize_props().volume, v.to_bits());
        assert_eq!(f32::from_bits(c.get_volume()), v);
    }
}

#[test]
fn speed_round_trip() {
    let mut c = AudioController::new(44_100);
    for s in [0.5f64, 0.97, 1.0, 1.5, 2.0] {
        let q = (s * CURSOR_ONE as f64) as u64;
        c.on_atomic_event(AtomicEvent::SetSpeed(q));
        assert_eq!(c.get_speed(), q);
        assert_eq!(c.serialize_props().playback_speed, q);
    }
}

#[test]
fn play_and_pause_set_the_tri_state() {
    let mut c = AudioController::new(44_100);
    c.on_atomic_event(AtomicEvent::Play);
    assert!(c.get_is_playing());
    c.on_atomic_event(AtomicEvent::Pause);
    assert!(!c.get_is_playing());
    assert!(!c.serialize_props().is_playing);
}

#[test]
fn load_reports_the_buffer_and_keeps_play_state() {
    let mut c = AudioController::new(44_100);
    c.on_atomic_event(AtomicEvent::Play);
    c.store_position(0);
    let r = c.load_buffer(stereo_buffer(48_000, 4));
    assert_eq!(r.sample_rate, 48_000);
    assert_eq!(r.duration, 4);
    assert!(c.get_is_playing());
    assert_eq!(c.get_song_position(), 0);
    assert_eq!(c.get_song_duration(), 4);
}

#[test]
fn load_resets_a_prior_cursor() {
    let mut c = AudioController::new(44_100);
    c.load_buffer(stereo_buffer(48_000, 8));
    c.store_position(5 * CURSOR_ONE);
    c.load_buffer(stereo_buffer(48_000, 4));
    assert_eq!(c.get_song_position(), 0);
}

#[test]
fn send_event_short_circuits_playback_commands() {
    let mut c = AudioController::new(44_100);
    c.send_event(AudioEvent::Playback(AtomicEvent::Play));
    assert!(c.get_is_playing());
    assert_eq!(c.events.len(), 0);
    c.send_event(AudioEvent::Placeholder);
    assert_eq!(c.events.len(), 1);
}

#[test]
fn event_queue_is_bounded_and_lossy() {
    let mut c = AudioController::new(44_100);
    for _ in 0..(EVENT_QUEUE_SIZE + 10) {
        c.send_event(AudioEvent::Placeholder);
    }
    assert_eq!(c.events.len(), EVENT_QUEUE_SIZE);
}

#[test]
fn playback_ratio_scales_rates_and_speed() {
    let mut c = AudioController::new(44_100);
    c.load_buffer(stereo_buffer(48_000, 4));
    c.on_atomic_event(AtomicEvent::SetSpeed(CURSOR_ONE));
    let expected = 48_000u128 * CURSOR_ONE as u128 / 44_100u128;
    assert_eq!(c.get_playback_rate() as u128, expected);
    let ratio = c.get_playback_rate() as f64 / CURSOR_ONE as f64;
    assert!((ratio - 48_000.0 / 44_100.0).abs() < 1e-9);
}

#[test]
fn set_position_seeks_by_fraction_of_playback_range() {
    let mut c = AudioController::new(44_100);
    c.load_buffer(stereo_buffer(48_000, 4));
    c.on_atomic_event(AtomicEvent::SetSpeed(CURSOR_ONE));
    let half = CURSOR_ONE / 2;
    c.set_position(half);
    let rate = 48_000u128 * CURSOR_ONE as u128 / 44_100u128;
    let scaled = half as u128 * rate / CURSOR_ONE as u128;
    let expected = (scaled * 4) % (4 * CURSOR_ONE as u128);
    assert_eq!(c.get_song_position() as u128, expected);
}

#[test]
fn set_position_on_empty_buffer_stays_at_zero() {
    let mut c = AudioController::new(44_100);
    c.set_position(CURSOR_ONE);
    assert_eq!(c.get_song_position(), 0);
}

#[test]
fn position_percent_is_position_over_duration() {
    let mut c = AudioController::new(44_100);
    assert_eq!(c.get_song_position_percent(), 0);
    c.load_buffer(stereo_buffer(48_000, 4));
    c.store_position(3 * CURSOR_ONE);
    assert_eq!(c.get_song_position_percent(), 3 * CURSOR_ONE / 4);
}

#[test]
fn format_sample_time_splits_minutes_and_seconds() {
    // 125 seconds at 44.1 kHz.
    let samples = 125u64 * 44_100 * CURSOR_ONE;
    assert_eq!(format_sample_time(samples, 44_100), (2, 5));
    assert_eq!(format_sample_time(0, 44_100), (0, 0));
    assert_eq!(format_sample_time(1_000, 0), (255, 255));
}

#[test]
fn pad_start_renders_two_ascii_digits() {
    assert_eq!(pad_start(7), *b"07");
    assert_eq!(pad_start(42), *b"42");
    assert_eq!(pad_start(0), *b"00");
    // Display wraps at one hundred, like the original two-digit field.
    assert_eq!(pad_start(255), *b"55");
}

#[test]
fn pretty_position_renders_both_clocks() {
    let mut c = AudioController::new(44_100);
    c.load_buffer(stereo_buffer(44_100, 44_100 * 125));
    c.store_position(65u64 * 44_100 * CURSOR_ONE);
    let line = c.get_song_position_pretty();
    assert_eq!(std::str::from_utf8(&line).unwrap(), "02:05 / 01:05");
}
