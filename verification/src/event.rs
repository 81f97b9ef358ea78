//! Control-plane events.
//!
//! Operations that are a single atomic parameter store travel as an
//! [`AtomicEvent`] and are applied immediately by the controller; anything
//! else would be carried over the bounded event channel as an
//! [`AudioEvent`], an extension point that currently has no live commands.
//!
//! Volume values are `f32` bit patterns and speed values are Q32.32
//! fixed-point multipliers, the engine's integer carriers for the two
//! numeric parameters.

use vstd::prelude::*;

verus! {

/// A command that is fully expressible as one atomic parameter store.
#[derive(Clone, Copy, Debug, PartialEq, Eq, Structural)]
pub enum AtomicEvent {
    Play,
    Pause,
    Stop,
    /// New linear gain, as the bit pattern of an `f32`.
    SetVolume(u32),
    /// New playback-speed multiplier, as a Q32.32 fixed-point value.
    SetSpeed(u64),
}

/// A command sent towards the render side.
#[derive(Clone, Copy, Debug, PartialEq, Eq, Structural)]
pub enum AudioEvent {
    /// A command that short-circuits into an atomic store.
    Playback(AtomicEvent),
    /// Reserved: the channel exists as an extension point only.
    Placeholder,
}

impl From<AtomicEvent> for AudioEvent {
    fn from(value: AtomicEvent) -> (r: AudioEvent) {
        AudioEvent::Playback(value)
    }
}

impl vstd::std_specs::convert::FromSpecImpl<AtomicEvent> for AudioEvent {
    open spec fn obeys_from_spec() -> bool {
        true
    }

    open spec fn from_spec(value: AtomicEvent) -> AudioEvent {
        AudioEvent::Playback(value)
    }
}

/// Failure of the reserved event channel; it can only occur once the
/// render side has been torn down, and no live command depends on it.
#[derive(Clone, Copy, Debug, PartialEq, Eq, Structural)]
pub enum ChannelError {
    Send,
    Recv,
}

} // verus!
