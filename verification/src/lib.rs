//! A real-time audio playback engine, modelled and verified.
//!
//! The engine decodes an audio file into per-channel sample data and streams
//! it to an output device while a control plane concurrently adjusts play
//! state, volume, speed and position.  Everything the engine decides —
//! playback state transitions, stream-format negotiation, sample routing,
//! cursor advancement and wrap-around — is verified here over exact integer
//! models: fractional cursors are Q32.32 fixed-point values and raw `f32`
//! samples travel as their `u32` bit patterns, which this crate moves but
//! never reinterprets.  The floating-point interpolation kernel and the
//! device, file and process boundaries live outside the library and consume
//! its verified decisions.

pub mod audio_loop;
pub mod bus;
pub mod cli;
pub mod decoder;
pub mod device;
pub mod error;
pub mod event;
pub mod library;
pub mod player;
pub mod resample;
pub mod ui;
