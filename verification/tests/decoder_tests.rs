use cozy_player::decoder::{deinterleave, route_media_type, CodecRoute, DecoderResult, DecodingError};
use cozy_player::player::SharedAudioBuffer;

#[test]
fn unknown_media_type_is_an_explicit_error() {
    match route_media_type("audio/x-unknown") {
        Err(DecodingError::UnsupportedFormat(m)) => assert_eq!(m, "audio/x-unknown"),
        other => panic!("expected an unsupported-format error, got {other:?}"),
    }
}

#[test]
fn wav_routes_to_the_general_decoder() {
    assert_eq!(route_media_type("audio/x-wav"), Ok(CodecRoute::General));
}

#[test]
fn opus_routes_to_the_dedicated_decoder() {
    assert_eq!(route_media_type("audio/x-opus+ogg"), Ok(CodecRoute::Opus));
}

#[test]
fn every_general_media_type_routes_to_the_general_decoder() {
    for mime in [
        "audio/aac",
        "audio/flac",
        "audio/mp2",
        "audio/mp4",
        "audio/mpeg",
        "audio/x-aiff",
        "audio/x-caf",
        "audio/x-vorbis+ogg",
        "audio/x-wav",
        "audio/vnd.wave",
    ] {
        assert_eq!(route_media_type(mime), Ok(CodecRoute::General), "{mime}");
    }
}

#[test]
fn video_media_type_is_rejected_verbatim() {
    match route_media_type("video/mp4") {
        Err(DecodingError::UnsupportedFormat(m)) => assert_eq!(m, "video/mp4"),
        other => panic!("expected an unsupported-format error, got {other:?}"),
    }
}

#[test]
fn deinterleave_splits_frames_into_channels() {
    let interleaved = vec![1, 2, 3, 4, 5, 6];
    assert_eq!(deinterleave(&interleaved, 2), vec![vec![1, 3, 5], vec![2, 4, 6]]);
}

#[test]
fn deinterleave_single_channel_is_identity() {
    let interleaved = vec![9, 8, 7];
    assert_eq!(deinterleave(&interleaved, 1), vec![vec![9, 8, 7]]);
}

#[test]
fn deinterleave_drops_a_trailing_partial_frame() {
    let interleaved = vec![1, 2, 3, 4, 5, 6, 7];
    assert_eq!(deinterleave(&interleaved, 2), vec![vec![1, 3, 5], vec![2, 4, 6]]);
}

#[test]
fn deinterleave_of_nothing_is_empty_channels() {
    assert_eq!(deinterleave(&Vec::new(), 2), vec![Vec::new(), Vec::new()]);
}

#[test]
fn decoder_result_becomes_the_shared_buffer() {
    let result = DecoderResult {
        channels: vec![vec![1, 2], vec![3, 4]],
        sample_rate: 48_000,
    };
    let buffer = SharedAudioBuffer::from(result);
    assert_eq!(buffer.sample_rate, 48_000);
    assert_eq!(buffer.channels, vec![vec![1, 2], vec![3, 4]]);
    assert_eq!(buffer.duration(), 2);
}
