//! Playback state and the audio controller facade.
//!
//! The controller owns the shared playback parameters and the currently
//! loaded decoded buffer, and is the one component external collaborators
//! talk to.  In the running process the parameters live in atomic cells
//! shared with the render thread; each control operation is a single
//! parameter store, so the sequential model verified here describes every
//! interleaving observable through those cells.
//!
//! Numeric carriers: positions and speed multipliers are Q32.32 fixed-point
//! values ([`crate::resample::CURSOR_ONE`] is one whole sample), volume is
//! the bit pattern of an `f32` linear gain, and samples are `f32` bit
//! patterns.

use vstd::prelude::*;

verus! {

use crate::bus::{Bus, bus_capacity, bus_queue, BUFFER_SIZE};
use crate::decoder::DecoderResult;
use crate::device::SAMPLE_RATE;
use crate::event::{AtomicEvent, AudioEvent};
use crate::resample::CURSOR_ONE;

/// Capacity of the reserved event queue towards the render side.
pub const EVENT_QUEUE_SIZE: usize = 128;

/// Default playback volume: the bit pattern of the `f32` linear gain 0.4.
pub const DEFAULT_VOLUME: u32 = 0x3ECC_CCCD;

/// Default playback speed: the Q32.32 multiplier nearest 0.97; a default
/// near but not exactly 1.0 is an accepted product choice.
pub const DEFAULT_SPEED: u64 = 4_166_118_277;

/// The authoritative playback tri-state.
#[derive(Clone, Copy, Debug, PartialEq, Eq, Structural)]
pub enum PlayState {
    Stopped,
    Paused,
    Playing,
}

/// The shared playback parameter bag.  Every field is independently
/// meaningful; in the running process each is one atomic cell.
#[derive(Clone, Copy, Debug, PartialEq, Eq, Structural)]
pub struct PlayerProps {
    /// The device's output sample rate, fixed at stream creation.
    pub sample_rate: u32,
    pub play_state: PlayState,
    /// Fractional read position into the loaded buffer, Q32.32.
    pub position: u64,
    /// Linear gain, as the bit pattern of an `f32`.
    pub volume: u32,
    /// Speed multiplier on top of the natural rate ratio, Q32.32.
    pub playback_speed: u64,
}

impl Default for PlayerProps {
    /// Parameters of a freshly constructed controller.
    fn default() -> (r: PlayerProps)
        ensures
            r == (PlayerProps {
                sample_rate: SAMPLE_RATE,
                play_state: PlayState::Stopped,
                position: 0,
                volume: DEFAULT_VOLUME,
                playback_speed: DEFAULT_SPEED,
            }),
    {
        PlayerProps {
            sample_rate: SAMPLE_RATE,
            play_state: PlayState::Stopped,
            position: 0,
            volume: DEFAULT_VOLUME,
            playback_speed: DEFAULT_SPEED,
        }
    }
}

/// Source samples consumed per device output frame, as a Q32.32 ratio:
/// `(source_rate / device_rate) * speed`, saturating at the carrier's
/// maximum.
pub open spec fn spec_playback_ratio(source_rate: u32, speed: u64, device_rate: u32) -> int {
    let q = (source_rate as int * speed as int) / device_rate as int;
    if q > u64::MAX as int {
        u64::MAX as int
    } else {
        q
    }
}

impl PlayerProps {
    /// The playback ratio against a source at `sample_rate`.
    pub fn get_playback_rate(&self, sample_rate: u32) -> (r: u64)
        requires
            self.sample_rate > 0,
        ensures
            r as int == spec_playback_ratio(sample_rate, self.playback_speed, self.sample_rate),
    {
        proof {
            vstd::arithmetic::mul::lemma_mul_upper_bound(
                sample_rate as int,
                u32::MAX as int,
                self.playback_speed as int,
                u64::MAX as int,
            );
        }
        let q = (sample_rate as u128) * (self.playback_speed as u128) / (self.sample_rate as u128);
        if q > u64::MAX as u128 {
            u64::MAX
        } else {
            q as u64
        }
    }
}

/// How one atomic control event rewrites the parameter bag.
pub open spec fn spec_apply_event(p: PlayerProps, event: AtomicEvent) -> PlayerProps {
    match event {
        AtomicEvent::Play => PlayerProps { play_state: PlayState::Playing, ..p },
        AtomicEvent::Pause => PlayerProps { play_state: PlayState::Paused, ..p },
        AtomicEvent::Stop => PlayerProps { play_state: PlayState::Stopped, position: 0, ..p },
        AtomicEvent::SetVolume(v) => PlayerProps { volume: v, ..p },
        AtomicEvent::SetSpeed(s) => PlayerProps { playback_speed: s, ..p },
    }
}

/// Stop resets the cursor and the state: whatever the prior position and
/// play state, after a stop the position is zero and the state is
/// `Stopped`, and no other parameter moves.
pub proof fn lemma_stop_resets_state(p: PlayerProps)
    ensures
        spec_apply_event(p, AtomicEvent::Stop).position == 0,
        spec_apply_event(p, AtomicEvent::Stop).play_state == PlayState::Stopped,
        spec_apply_event(p, AtomicEvent::Stop).volume == p.volume,
        spec_apply_event(p, AtomicEvent::Stop).playback_speed == p.playback_speed,
        spec_apply_event(p, AtomicEvent::Stop).sample_rate == p.sample_rate,
{
}

/// Volume round-trip: setting the volume and snapshotting the parameters
/// reads back exactly the value set, for every bit pattern.
pub proof fn lemma_volume_round_trip(p: PlayerProps, v: u32)
    ensures
        spec_apply_event(p, AtomicEvent::SetVolume(v)).volume == v,
{
}

/// Speed round-trip: setting the speed and snapshotting the parameters
/// reads back exactly the value set, for every Q32.32 multiplier.
pub proof fn lemma_speed_round_trip(p: PlayerProps, s: u64)
    ensures
        spec_apply_event(p, AtomicEvent::SetSpeed(s)).playback_speed == s,
{
}

/// The currently loaded decoded buffer: one sample sequence per channel,
/// all equally long, at the stream's native rate.  Immutable once built;
/// a load installs a whole new buffer.
#[derive(Clone, Debug)]
pub struct SharedAudioBuffer {
    pub sample_rate: u32,
    /// Per-channel sample data, as `f32` bit patterns.
    pub channels: Vec<Vec<u32>>,
}

impl SharedAudioBuffer {
    /// Well-formedness: equally long channels, short enough for a Q32.32
    /// cursor to address every sample.
    pub open spec fn wf(&self) -> bool {
        &&& forall|c: int|
            0 <= c < self.channels.len() ==> #[trigger] self.channels[c].len()
                == self.spec_duration()
        &&& (self.spec_duration() as int) < CURSOR_ONE as int
    }

    /// Length of the buffer in samples; zero when no channels exist.
    pub open spec fn spec_duration(&self) -> nat {
        if self.channels.len() == 0 {
            0
        } else {
            self.channels[0].len() as nat
        }
    }

    /// Length of the loaded stream in samples.
    pub fn duration(&self) -> (r: usize)
        ensures
            r == self.spec_duration(),
    {
        if self.channels.len() == 0 {
            0
        } else {
            self.channels[0].len()
        }
    }
}

impl Default for SharedAudioBuffer {
    /// The empty buffer a controller starts with; playback over it is
    /// silence.
    fn default() -> (r: SharedAudioBuffer)
        ensures
            r.sample_rate == SAMPLE_RATE,
            r.channels.len() == 0,
            r.wf(),
    {
        SharedAudioBuffer { sample_rate: SAMPLE_RATE, channels: Vec::new() }
    }
}

impl From<DecoderResult> for SharedAudioBuffer {
    fn from(value: DecoderResult) -> (r: SharedAudioBuffer) {
        SharedAudioBuffer { sample_rate: value.sample_rate, channels: value.channels }
    }
}

impl vstd::std_specs::convert::FromSpecImpl<DecoderResult> for SharedAudioBuffer {
    open spec fn obeys_from_spec() -> bool {
        true
    }

    open spec fn from_spec(value: DecoderResult) -> SharedAudioBuffer {
        SharedAudioBuffer { sample_rate: value.sample_rate, channels: value.channels }
    }
}

/// What a load reports back: the stream's native rate and its length.
#[derive(Clone, Copy, Debug, PartialEq, Eq, Structural)]
pub struct LoadSongSerialize {
    pub sample_rate: u32,
    pub duration: usize,
}

impl From<&SharedAudioBuffer> for LoadSongSerialize {
    fn from(value: &SharedAudioBuffer) -> (r: LoadSongSerialize) {
        LoadSongSerialize { sample_rate: value.sample_rate, duration: value.duration() }
    }
}

impl vstd::std_specs::convert::FromSpecImpl<&SharedAudioBuffer> for LoadSongSerialize {
    open spec fn obeys_from_spec() -> bool {
        true
    }

    open spec fn from_spec(value: &SharedAudioBuffer) -> LoadSongSerialize {
        LoadSongSerialize {
            sample_rate: value.sample_rate,
            duration: value.spec_duration() as usize,
        }
    }
}

/// A consistent snapshot of everything the control plane displays.
#[derive(Clone, Copy, Debug, PartialEq, Eq, Structural)]
pub struct PlayerPropsSerialize {
    pub is_playing: bool,
    /// Q32.32 fractional sample position.
    pub position: u64,
    /// `f32` bit pattern of the linear gain.
    pub volume: u32,
    /// The device's output rate.
    pub sample_rate: u32,
    /// Q32.32 speed multiplier.
    pub playback_speed: u64,
    /// Length of the loaded buffer in samples.
    pub local_duration: usize,
    /// Native rate of the loaded buffer.
    pub local_sample_rate: u32,
}

/// The audio controller facade: owns the parameters, the loaded buffer,
/// the monitor pipe and the reserved event queue.
#[derive(Debug)]
pub struct AudioController {
    pub bus: Bus,
    pub shared_audio: SharedAudioBuffer,
    pub events: Vec<AudioEvent>,
    pub props: PlayerProps,
}

/// Appending to the bounded event queue: dropped when full, never
/// blocking.
pub open spec fn spec_enqueue(q: Seq<AudioEvent>, e: AudioEvent) -> Seq<AudioEvent> {
    if q.len() < EVENT_QUEUE_SIZE {
        q.push(e)
    } else {
        q
    }
}

impl AudioController {
    /// Controller invariant: a positive device rate, a well-formed
    /// buffer, and a cursor inside it (zero when it is empty).
    pub open spec fn wf(&self) -> bool {
        &&& self.props.sample_rate > 0
        &&& self.shared_audio.wf()
        &&& self.shared_audio.spec_duration() > 0 ==> (self.props.position as int)
            < self.shared_audio.spec_duration() as int * CURSOR_ONE as int
        &&& self.shared_audio.spec_duration() == 0 ==> self.props.position == 0
    }

    /// A controller for a freshly negotiated stream at `sample_rate`,
    /// with default parameters and no buffer loaded.
    pub fn new(sample_rate: u32) -> (r: AudioController)
        requires
            sample_rate > 0,
        ensures
            r.wf(),
            r.props == (PlayerProps {
                sample_rate,
                play_state: PlayState::Stopped,
                position: 0,
                volume: DEFAULT_VOLUME,
                playback_speed: DEFAULT_SPEED,
            }),
            r.shared_audio.channels.len() == 0,
            r.events.len() == 0,
            bus_queue(&r.bus) == Seq::<u32>::empty(),
            bus_capacity(&r.bus) == BUFFER_SIZE,
    {
        let props = PlayerProps { sample_rate, ..PlayerProps::default() };
        AudioController {
            bus: Bus::default(),
            shared_audio: SharedAudioBuffer::default(),
            events: Vec::new(),
            props,
        }
    }

    /// Routes a control event: an atomic playback command short-circuits
    /// into its parameter store; anything else is queued towards the
    /// render side, best-effort.
    pub fn send_event(&mut self, msg: AudioEvent)
        requires
            old(self).wf(),
        ensures
            final(self).wf(),
            final(self).bus == old(self).bus,
            final(self).shared_audio == old(self).shared_audio,
            match msg {
                AudioEvent::Playback(e) => final(self).props == spec_apply_event(
                    old(self).props,
                    e,
                ) && final(self).events == old(self).events,
                _ => final(self).props == old(self).props && final(self).events@ == spec_enqueue(
                    old(self).events@,
                    msg,
                ),
            },
    {
        match msg {
            AudioEvent::Playback(e) => self.on_atomic_event(e),
            _ => {
                if self.events.len() < EVENT_QUEUE_SIZE {
                    self.events.push(msg);
                }
            },
        }
    }

    /// Applies one atomic playback command to the parameter bag.
    pub fn on_atomic_event(&mut self, event: AtomicEvent)
        requires
            old(self).wf(),
        ensures
            final(self).wf(),
            final(self).props == spec_apply_event(old(self).props, event),
            final(self).bus == old(self).bus,
            final(self).shared_audio == old(self).shared_audio,
            final(self).events == old(self).events,
    {
        match event {
            AtomicEvent::Play => {
                self.props.play_state = PlayState::Playing;
            },
            AtomicEvent::Pause => {
                self.props.play_state = PlayState::Paused;
            },
            AtomicEvent::Stop => {
                self.props.play_state = PlayState::Stopped;
                self.props.position = 0;
            },
            AtomicEvent::SetVolume(volume) => {
                self.props.volume = volume;
            },
            AtomicEvent::SetSpeed(speed) => {
                self.props.playback_speed = speed;
            },
        }
    }

    /// Installs a freshly decoded buffer.  Loading resets the cursor and
    /// leaves the play state untouched: it does not auto-play.
    pub fn load_buffer(&mut self, buffer: SharedAudioBuffer) -> (r: LoadSongSerialize)
        requires
            old(self).wf(),
            buffer.wf(),
        ensures
            final(self).wf(),
            final(self).shared_audio == buffer,
            final(self).props == (PlayerProps { position: 0, ..old(self).props }),
            final(self).bus == old(self).bus,
            final(self).events == old(self).events,
            r.sample_rate == buffer.sample_rate,
            r.duration == buffer.spec_duration(),
    {
        let r = LoadSongSerialize { sample_rate: buffer.sample_rate, duration: buffer.duration() };
        self.shared_audio = buffer;
        self.props.position = 0;
        r
    }

    /// The device's output sample rate.
    pub fn sample_rate(&self) -> (r: u32)
        ensures
            r == self.props.sample_rate,
    {
        self.props.sample_rate
    }

    /// The current volume, as an `f32` bit pattern.
    pub fn get_volume(&self) -> (r: u32)
        ensures
            r == self.props.volume,
    {
        self.props.volume
    }

    /// The current Q32.32 speed multiplier.
    pub fn get_speed(&self) -> (r: u64)
        ensures
            r == self.props.playback_speed,
    {
        self.props.playback_speed
    }

    /// Whether the engine is actively rendering.
    pub fn get_is_playing(&self) -> (r: bool)
        ensures
            r == (self.props.play_state == PlayState::Playing),
    {
        matches!(self.props.play_state, PlayState::Playing)
    }

    /// The playback ratio against the loaded buffer's native rate.
    pub fn get_playback_rate(&self) -> (r: u64)
        requires
            self.wf(),
        ensures
            r as int == spec_playback_ratio(
                self.shared_audio.sample_rate,
                self.props.playback_speed,
                self.props.sample_rate,
            ),
    {
        self.props.get_playback_rate(self.shared_audio.sample_rate)
    }

    /// Length of the loaded buffer in samples.
    pub fn get_song_duration(&self) -> (r: usize)
        ensures
            r == self.shared_audio.spec_duration(),
    {
        self.shared_audio.duration()
    }

    /// The current Q32.32 cursor position.
    pub fn get_song_position(&self) -> (r: u64)
        ensures
            r == self.props.position,
    {
        self.props.position
    }

    /// The cursor as a Q32.32 fraction of the buffer length; zero while
    /// nothing is loaded.
    pub fn get_song_position_percent(&self) -> (r: u64)
        requires
            self.wf(),
        ensures
            self.shared_audio.spec_duration() == 0 ==> r == 0,
            self.shared_audio.spec_duration() > 0 ==> r as int == self.props.position as int
                / self.shared_audio.spec_duration() as int,
    {
        let duration = self.shared_audio.duration();
        if duration == 0 {
            0
        } else {
            self.props.position / (duration as u64)
        }
    }

    /// Stores a cursor position computed by the render loop.
    pub fn store_position(&mut self, position: u64)
        requires
            old(self).wf(),
            old(self).shared_audio.spec_duration() > 0 ==> (position as int) < old(
                self,
            ).shared_audio.spec_duration() as int * CURSOR_ONE as int,
            old(self).shared_audio.spec_duration() == 0 ==> position == 0,
        ensures
            final(self).wf(),
            final(self).props == (PlayerProps { position, ..old(self).props }),
            final(self).bus == old(self).bus,
            final(self).shared_audio == old(self).shared_audio,
            final(self).events == old(self).events,
    {
        self.props.position = position;
    }

    /// Seeks to a fraction of the playable range: the fraction of the
    /// playback rate times the buffer duration, wrapped into the buffer.
    pub fn set_position(&mut self, pos_percent: u64)
        requires
            old(self).wf(),
            pos_percent <= CURSOR_ONE,
        ensures
            final(self).wf(),
            final(self).props == (PlayerProps {
                position: spec_seek_position(
                    pos_percent,
                    spec_playback_ratio(
                        old(self).shared_audio.sample_rate,
                        old(self).props.playback_speed,
                        old(self).props.sample_rate,
                    ),
                    old(self).shared_audio.spec_duration(),
                ),
                ..old(self).props
            }),
            final(self).bus == old(self).bus,
            final(self).shared_audio == old(self).shared_audio,
            final(self).events == old(self).events,
    {
        let duration = self.shared_audio.duration();
        if duration == 0 {
            self.props.position = 0;
            return ;
        }
        let rate = self.get_playback_rate();
        proof {
            vstd::arithmetic::mul::lemma_mul_upper_bound(
                pos_percent as int,
                CURSOR_ONE as int,
                rate as int,
                u64::MAX as int,
            );
            vstd::arithmetic::div_mod::lemma_div_is_ordered(
                pos_percent as int * rate as int,
                CURSOR_ONE as int * u64::MAX as int,
                CURSOR_ONE as int,
            );
            vstd::arithmetic::div_mod::lemma_div_multiples_vanish(
                u64::MAX as int,
                CURSOR_ONE as int,
            );
        }
        let scaled = (pos_percent as u128) * (rate as u128) / (CURSOR_ONE as u128);
        let len_q = (duration as u128) * (CURSOR_ONE as u128);
        proof {
            vstd::arithmetic::mul::lemma_mul_upper_bound(
                scaled as int,
                u64::MAX as int,
                duration as int,
                u32::MAX as int,
            );
        }
        let position = ((scaled * (duration as u128)) % len_q) as u64;
        proof {
            vstd::arithmetic::div_mod::lemma_mod_bound(
                (pos_percent as int * spec_playback_ratio(
                    self.shared_audio.sample_rate,
                    self.props.playback_speed,
                    self.props.sample_rate,
                ) / CURSOR_ONE as int) * duration as int,
                duration as int * CURSOR_ONE as int,
            );
        }
        self.props.position = position;
    }

    /// A snapshot of every displayed parameter, assembled from the
    /// independent cells.
    pub fn serialize_props(&self) -> (r: PlayerPropsSerialize)
        ensures
            r == (PlayerPropsSerialize {
                is_playing: self.props.play_state == PlayState::Playing,
                position: self.props.position,
                volume: self.props.volume,
                sample_rate: self.props.sample_rate,
                playback_speed: self.props.playback_speed,
                local_duration: self.shared_audio.spec_duration() as usize,
                local_sample_rate: self.shared_audio.sample_rate,
            }),
    {
        PlayerPropsSerialize {
            is_playing: self.get_is_playing(),
            position: self.props.position,
            volume: self.props.volume,
            sample_rate: self.props.sample_rate,
            playback_speed: self.props.playback_speed,
            local_duration: self.shared_audio.duration(),
            local_sample_rate: self.shared_audio.sample_rate,
        }
    }
}

/// Where a seek to `fraction` lands: `fraction * ratio * duration` whole
/// Q32.32 steps, wrapped into the buffer; zero while nothing is loaded.
pub open spec fn spec_seek_position(fraction: u64, ratio: int, duration: nat) -> u64 {
    if duration == 0 {
        0
    } else {
        ((fraction as int * ratio / CURSOR_ONE as int) * duration as int % (duration as int
            * CURSOR_ONE as int)) as u64
    }
}


/// The ASCII tens digit of a two-digit display number.
pub open spec fn spec_tens_digit(n: u8) -> u8 {
    (48 + (n as int / 10) % 10) as u8
}

/// The ASCII ones digit of a two-digit display number.
pub open spec fn spec_ones_digit(n: u8) -> u8 {
    (48 + n as int % 10) as u8
}

/// Whole minutes a Q32.32 sample count spans at `rate`, saturated to the
/// two-digit display carrier (and to its maximum when the rate is zero,
/// as an unbounded time would be).
pub open spec fn spec_minutes(samples: u64, rate: u32) -> u8 {
    if rate == 0 {
        255
    } else {
        let secs = samples as int / (CURSOR_ONE as int * rate as int);
        if secs / 60 > 255 {
            255
        } else {
            (secs / 60) as u8
        }
    }
}

/// Seconds left over after [`spec_minutes`], saturated the same way.
pub open spec fn spec_seconds(samples: u64, rate: u32) -> u8 {
    if rate == 0 {
        255
    } else {
        let secs = samples as int / (CURSOR_ONE as int * rate as int);
        let rem = secs - 60 * spec_minutes(samples, rate);
        if rem > 255 {
            255
        } else {
            rem as u8
        }
    }
}

/// Splits a Q32.32 sample count at `sample_rate` into display minutes
/// and seconds.
pub fn format_sample_time(samples: u64, sample_rate: u32) -> (r: (u8, u8))
    ensures
        r.0 == spec_minutes(samples, sample_rate),
        r.1 == spec_seconds(samples, sample_rate),
{
    if sample_rate == 0 {
        return (255, 255);
    }
    let denom = CURSOR_ONE * (sample_rate as u64);
    let secs = samples / denom;
    let m64 = secs / 60;
    let minutes: u8 = if m64 > 255 {
        255
    } else {
        m64 as u8
    };
    proof {
        vstd::arithmetic::div_mod::lemma_fundamental_div_mod(secs as int, 60);
        vstd::arithmetic::div_mod::lemma_mod_bound(secs as int, 60);
    }
    let rem = secs - (minutes as u64) * 60;
    let seconds: u8 = if rem > 255 {
        255
    } else {
        rem as u8
    };
    (minutes, seconds)
}

/// The two ASCII digits of a display number, zero-padded.
pub fn pad_start(num: u8) -> (r: [u8; 2])
    ensures
        r@.len() == 2,
        r@[0] == spec_tens_digit(num),
        r@[1] == spec_ones_digit(num),
{
    [((num / 10) % 10) + 48, (num % 10) + 48]
}

/// The thirteen display bytes `mm:ss / mm:ss` built from a duration and
/// a position reading.
pub open spec fn spec_pretty_time(dm: u8, ds: u8, pm: u8, ps: u8) -> Seq<u8> {
    seq![
        spec_tens_digit(dm),
        spec_ones_digit(dm),
        58u8,
        spec_tens_digit(ds),
        spec_ones_digit(ds),
        32u8,
        47u8,
        32u8,
        spec_tens_digit(pm),
        spec_ones_digit(pm),
        58u8,
        spec_tens_digit(ps),
        spec_ones_digit(ps),
    ]
}

impl AudioController {
    /// The display line `mm:ss / mm:ss`: the loaded stream's duration at
    /// its native rate, then the cursor at the device rate.
    pub fn get_song_position_pretty(&self) -> (r: [u8; 13])
        requires
            self.wf(),
        ensures
            r@ =~= spec_pretty_time(
                spec_minutes(
                    (self.shared_audio.spec_duration() * CURSOR_ONE) as u64,
                    self.shared_audio.sample_rate,
                ),
                spec_seconds(
                    (self.shared_audio.spec_duration() * CURSOR_ONE) as u64,
                    self.shared_audio.sample_rate,
                ),
                spec_minutes(self.props.position, self.props.sample_rate),
                spec_seconds(self.props.position, self.props.sample_rate),
            ),
    {
        let duration = self.shared_audio.duration();
        let duration_q = (duration as u64) * CURSOR_ONE;
        let (dm, ds) = format_sample_time(duration_q, self.shared_audio.sample_rate);
        let (pm, ps) = format_sample_time(self.props.position, self.sample_rate());
        let d = pad_start(dm);
        let e = pad_start(ds);
        let p = pad_start(pm);
        let q = pad_start(ps);
        [d[0], d[1], 58, e[0], e[1], 32, 47, 32, p[0], p[1], 58, q[0], q[1]]
    }
}

} // verus!
