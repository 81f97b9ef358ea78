use cozy_player::audio_loop::{advance_cursor, audio_loop, channel_map, plan_render, RenderPlan};
use cozy_player::event::AtomicEvent;
use cozy_player::player::{AudioController, PlayState, SharedAudioBuffer};
use cozy_player::resample::CURSOR_ONE;

/// The end-to-end synthetic stream: two channels, 48 kHz, four samples.
fn synthetic_buffer() -> SharedAudioBuffer {
    let left: Vec<u32> = [0.0f32, 1.0, 0.0, -1.0].iter().map(|s| s.to_bits()).collect();
    let right: Vec<u32> = [0.0f32, -1.0, 0.0, 1.0].iter().map(|s| s.to_bits()).collect();
    SharedAudioBuffer {
        sample_rate: 48_000,
        channels: vec![left, right],
    }
}

#[test]
fn advance_wraps_modulo_the_buffer_length() {
    let len_q = 4 * CURSOR_ONE;
    assert_eq!(advance_cursor(0, CURSOR_ONE, 4), CURSOR_ONE);
    assert_eq!(advance_cursor(3 * CURSOR_ONE, CURSOR_ONE, 4), 0);
    assert_eq!(advance_cursor(3 * CURSOR_ONE + 5, 2 * CURSOR_ONE, 4), CURSOR_ONE + 5);
    assert_eq!(advance_cursor(0, 9 * CURSOR_ONE, 4), 9 * CURSOR_ONE % len_q);
}

#[test]
fn paused_engine_renders_silence_regardless_of_cursor() {
    let buffer = synthetic_buffer();
    for state in [PlayState::Stopped, PlayState::Paused] {
        for position in [0, CURSOR_ONE, 3 * CURSOR_ONE + 123] {
            let plan = plan_render(state, &buffer, position, CURSOR_ONE, 64);
            assert_eq!(plan, RenderPlan::Silence);
        }
    }
}

#[test]
fn zero_channel_buffer_renders_silence() {
    let buffer = SharedAudioBuffer {
        sample_rate: 48_000,
        channels: Vec::new(),
    };
    let plan = plan_render(PlayState::Playing, &buffer, 0, CURSOR_ONE, 64);
    assert_eq!(plan, RenderPlan::Silence);
}

#[test]
fn empty_channels_render_silence() {
    let buffer = SharedAudioBuffer {
        sample_rate: 48_000,
        channels: vec![Vec::new(), Vec::new()],
    };
    let plan = plan_render(PlayState::Playing, &buffer, 0, CURSOR_ONE, 64);
    assert_eq!(plan, RenderPlan::Silence);
}

#[test]
fn playing_engine_plans_one_cursor_per_frame() {
    let buffer = synthetic_buffer();
    let ratio = 48_000u64 * CURSOR_ONE / 44_100;
    let len_q = 4u128 * CURSOR_ONE as u128;
    match plan_render(PlayState::Playing, &buffer, 0, ratio, 16) {
        RenderPlan::Play {
            cursors,
            end_position,
        } => {
            assert_eq!(cursors.len(), 16);
            for (i, &c) in cursors.iter().enumerate() {
                let expected = (i as u128 * ratio as u128) % len_q;
                assert_eq!(c as u128, expected, "frame {i}");
            }
            assert_eq!(end_position as u128, (16u128 * ratio as u128) % len_q);
        }
        RenderPlan::Silence => panic!("expected a playing plan"),
    }
}

#[test]
fn end_to_end_callback_stores_the_advanced_position() {
    // Load the synthetic two-channel buffer, play at speed 1.0 against a
    // 44.1 kHz device, and run one callback of 10 frames: the stored
    // position is 10 ratio steps, modulo the four-sample length.
    let mut c = AudioController::new(44_100);
    let report = c.load_buffer(synthetic_buffer());
    assert_eq!(report.sample_rate, 48_000);
    assert_eq!(report.duration, 4);
    c.on_atomic_event(AtomicEvent::SetSpeed(CURSOR_ONE));
    c.on_atomic_event(AtomicEvent::Play);

    let ratio = 48_000u128 * CURSOR_ONE as u128 / 44_100;
    // One source sample per output frame is about 1.088 device frames.
    assert!((ratio as f64 / CURSOR_ONE as f64 - 1.088).abs() < 1e-3);

    let plan = audio_loop(&mut c, 10);
    let len_q = 4u128 * CURSOR_ONE as u128;
    let expected_end = (10u128 * ratio) % len_q;
    match plan {
        RenderPlan::Play {
            cursors,
            end_position,
        } => {
            assert_eq!(cursors.len(), 10);
            assert_eq!(cursors[0], 0);
            assert_eq!(end_position as u128, expected_end);
        }
        RenderPlan::Silence => panic!("expected a playing plan"),
    }
    assert_eq!(c.get_song_position() as u128, expected_end);

    // A paused callback leaves the stored position alone.
    c.on_atomic_event(AtomicEvent::Pause);
    let plan = audio_loop(&mut c, 10);
    assert_eq!(plan, RenderPlan::Silence);
    assert_eq!(c.get_song_position() as u128, expected_end);
}

#[test]
fn device_channels_beyond_the_decoded_count_are_silent() {
    assert_eq!(channel_map(0, 2), Some(0));
    assert_eq!(channel_map(1, 2), Some(1));
    assert_eq!(channel_map(2, 2), None);
    assert_eq!(channel_map(5, 0), None);
}
