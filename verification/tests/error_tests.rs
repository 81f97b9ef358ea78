use cozy_player::decoder::DecodingError;
use cozy_player::error::{AudioError, ConfigError, StreamError};
use cozy_player::event::{AtomicEvent, AudioEvent, ChannelError};

#[test]
fn every_failure_wraps_into_the_audio_error() {
    assert_eq!(
        AudioError::from(ConfigError::NoOutputDevice),
        AudioError::Config(ConfigError::NoOutputDevice)
    );
    assert_eq!(
        AudioError::from(StreamError::StreamBuildFailed),
        AudioError::Stream(StreamError::StreamBuildFailed)
    );
    assert_eq!(
        AudioError::from(ChannelError::Send),
        AudioError::Channel(ChannelError::Send)
    );
    assert_eq!(
        AudioError::from(DecodingError::NoTrack),
        AudioError::Decoding(DecodingError::NoTrack)
    );
}

#[test]
fn an_atomic_event_becomes_a_playback_event() {
    assert_eq!(
        AudioEvent::from(AtomicEvent::Play),
        AudioEvent::Playback(AtomicEvent::Play)
    );
    assert_eq!(
        AudioEvent::from(AtomicEvent::SetVolume(7)),
        AudioEvent::Playback(AtomicEvent::SetVolume(7))
    );
}
