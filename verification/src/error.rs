//! The engine's error taxonomy.
//!
//! Decode errors are recoverable: a failed load leaves the previously
//! installed buffer playing.  Configuration and stream errors are fatal to
//! controller construction only.  Channel errors concern the reserved event
//! channel and are non-fatal.

use vstd::prelude::*;

verus! {

use crate::decoder::DecodingError;
use crate::event::ChannelError;

/// No usable output stream configuration could be negotiated.
#[derive(Clone, Copy, Debug, PartialEq, Eq, Structural)]
pub enum ConfigError {
    /// The host reports no default output device.
    NoOutputDevice,
    /// The device refused to enumerate its supported configurations.
    ConfigQueryFailed,
    /// The device advertises no configuration at all.
    NoConfigAvailable,
}

/// The negotiated stream could not be constructed or started.
#[derive(Clone, Copy, Debug, PartialEq, Eq, Structural)]
pub enum StreamError {
    StreamBuildFailed,
    StreamPlayFailed,
}

/// Any failure surfaced by the audio controller.
#[derive(Clone, Debug, PartialEq, Eq)]
pub enum AudioError {
    Channel(ChannelError),
    Decoding(DecodingError),
    Config(ConfigError),
    Stream(StreamError),
}

impl From<ChannelError> for AudioError {
    fn from(value: ChannelError) -> (r: AudioError) {
        AudioError::Channel(value)
    }
}

impl vstd::std_specs::convert::FromSpecImpl<ChannelError> for AudioError {
    open spec fn obeys_from_spec() -> bool {
        true
    }

    open spec fn from_spec(value: ChannelError) -> AudioError {
        AudioError::Channel(value)
    }
}

impl From<DecodingError> for AudioError {
    fn from(value: DecodingError) -> (r: AudioError) {
        AudioError::Decoding(value)
    }
}

impl vstd::std_specs::convert::FromSpecImpl<DecodingError> for AudioError {
    open spec fn obeys_from_spec() -> bool {
        true
    }

    open spec fn from_spec(value: DecodingError) -> AudioError {
        AudioError::Decoding(value)
    }
}

impl From<ConfigError> for AudioError {
    fn from(value: ConfigError) -> (r: AudioError) {
        AudioError::Config(value)
    }
}

impl vstd::std_specs::convert::FromSpecImpl<ConfigError> for AudioError {
    open spec fn obeys_from_spec() -> bool {
        true
    }

    open spec fn from_spec(value: ConfigError) -> AudioError {
        AudioError::Config(value)
    }
}

impl From<StreamError> for AudioError {
    fn from(value: StreamError) -> (r: AudioError) {
        AudioError::Stream(value)
    }
}

impl vstd::std_specs::convert::FromSpecImpl<StreamError> for AudioError {
    open spec fn obeys_from_spec() -> bool {
        true
    }

    open spec fn from_spec(value: StreamError) -> AudioError {
        AudioError::Stream(value)
    }
}

} // verus!
