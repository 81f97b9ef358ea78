//! The render-loop decisions, one hardware callback at a time.
//!
//! The OS audio subsystem invokes the render callback with an output buffer
//! of interleaved device-format frames.  The callback snapshots the shared
//! parameters and the loaded buffer, then either fills the whole output
//! with the equilibrium (silence) value, or walks the buffer with a
//! fractional cursor, one playback-ratio step per frame, wrapping modulo
//! the buffer length (looping playback), and finally stores the cursor
//! back.
//!
//! Everything the callback decides is verified here: when silence is owed,
//! which cursor position every output frame reads, which decoded channel
//! feeds each device channel, and the cursor value stored at the end.
//! Evaluating the interpolation kernel at those cursors and converting to
//! the device's numeric representation is floating-point work done by the
//! caller, frame by frame, from this plan.

use vstd::prelude::*;

verus! {

use vstd::arithmetic::div_mod::{
    lemma_add_mod_noop,
    lemma_mod_bound,
    lemma_mod_twice,
    lemma_small_mod,
};
use crate::player::{AudioController, PlayerProps, PlayState, SharedAudioBuffer, spec_playback_ratio};
use crate::resample::CURSOR_ONE;

/// What one render callback does: fill with silence, or render `cursors`
/// frame by frame and store `end_position`.
#[derive(Clone, Debug, PartialEq, Eq)]
pub enum RenderPlan {
    /// Fill the entire output with the equilibrium sample value.
    Silence,
    /// Interpolate one output frame at each cursor, in order.
    Play { cursors: Vec<u64>, end_position: u64 },
}

/// When a callback owes silence: the engine is not playing, or the
/// loaded buffer has no channels, or its channels are empty.
pub open spec fn spec_is_silent(state: PlayState, buffer: &SharedAudioBuffer) -> bool {
    state != PlayState::Playing || buffer.channels.len() == 0 || buffer.spec_duration() == 0
}

/// The cursor after `n` frames: the start plus `n` ratio steps, wrapped
/// modulo the buffer length in Q32.32 steps.
pub open spec fn spec_cursor_at(start: u64, ratio: u64, duration: nat, n: nat) -> int {
    (start + n * ratio) % (duration as int * CURSOR_ONE as int)
}

/// Advances the fractional cursor by one playback-ratio step, wrapping
/// modulo the buffer length.
pub fn advance_cursor(pos: u64, ratio: u64, duration: usize) -> (r: u64)
    requires
        0 < duration,
        (duration as int) < CURSOR_ONE as int,
        (pos as int) < duration as int * CURSOR_ONE as int,
    ensures
        r as int == (pos + ratio) % (duration as int * CURSOR_ONE as int),
        (r as int) < duration as int * CURSOR_ONE as int,
{
    let len_q = (duration as u128) * (CURSOR_ONE as u128);
    let r = ((pos as u128 + ratio as u128) % len_q) as u64;
    proof {
        lemma_mod_bound(pos + ratio, duration as int * CURSOR_ONE as int);
    }
    r
}

/// Which decoded channel feeds a device channel: the channel with the
/// same index, or silence for device channels beyond the decoded count —
/// the mapping never reads out of bounds.
pub fn channel_map(channel: usize, channel_count: usize) -> (r: Option<usize>)
    ensures
        channel < channel_count ==> r == Some(channel),
        channel >= channel_count ==> r is None,
{
    if channel < channel_count {
        Some(channel)
    } else {
        None
    }
}

/// Decides one render callback of `frames` output frames: silence, or
/// the cursor for every frame plus the final cursor to store.
///
/// The silence clause is exact: the plan is `Silence` if and only if the
/// state is not `Playing` or the buffer has no channels or no samples —
/// regardless of the prior cursor.
pub fn plan_render(
    state: PlayState,
    buffer: &SharedAudioBuffer,
    position: u64,
    ratio: u64,
    frames: usize,
) -> (r: RenderPlan)
    requires
        buffer.wf(),
        buffer.spec_duration() > 0 ==> (position as int) < buffer.spec_duration() as int
            * CURSOR_ONE as int,
    ensures
        r is Silence <==> spec_is_silent(state, buffer),
        match r {
            RenderPlan::Silence => true,
            RenderPlan::Play { cursors, end_position } => {
                &&& cursors.len() == frames
                &&& forall|i: int|
                    0 <= i < frames ==> #[trigger] cursors[i] as int == spec_cursor_at(
                        position,
                        ratio,
                        buffer.spec_duration(),
                        i as nat,
                    )
                &&& end_position as int == spec_cursor_at(
                    position,
                    ratio,
                    buffer.spec_duration(),
                    frames as nat,
                )
                &&& (end_position as int) < buffer.spec_duration() as int * CURSOR_ONE as int
            },
        },
{
    let duration = buffer.duration();
    if !matches!(state, PlayState::Playing) || buffer.channels.len() == 0 || duration == 0 {
        return RenderPlan::Silence;
    }
    let ghost len_q = duration as int * CURSOR_ONE as int;
    proof {
        lemma_small_mod(position as nat, (duration as int * CURSOR_ONE as int) as nat);
    }
    let mut cursors: Vec<u64> = Vec::new();
    let mut pos = position;
    let mut i: usize = 0;
    while i < frames
        invariant
            i <= frames,
            0 < duration,
            duration == buffer.spec_duration(),
            (duration as int) < CURSOR_ONE as int,
            len_q == duration as int * CURSOR_ONE as int,
            (pos as int) < len_q,
            pos as int == spec_cursor_at(position, ratio, duration as nat, i as nat),
            cursors.len() == i,
            forall|j: int|
                0 <= j < i ==> #[trigger] cursors[j] as int == spec_cursor_at(
                    position,
                    ratio,
                    duration as nat,
                    j as nat,
                ),
        decreases frames - i,
    {
        cursors.push(pos);
        let next = advance_cursor(pos, ratio, duration);
        proof {
            lemma_cursor_step(position, ratio, duration as nat, i as nat, pos, next);
        }
        pos = next;
        i = i + 1;
    }
    RenderPlan::Play { cursors, end_position: pos }
}

/// One ratio step from the cursor after `n` frames lands on the cursor
/// after `n + 1` frames.
proof fn lemma_cursor_step(start: u64, ratio: u64, duration: nat, n: nat, pos: u64, next: u64)
    requires
        0 < duration,
        pos as int == spec_cursor_at(start, ratio, duration, n),
        next as int == (pos + ratio) % (duration as int * CURSOR_ONE as int),
    ensures
        next as int == spec_cursor_at(start, ratio, duration, n + 1),
{
    let len_q = duration as int * CURSOR_ONE as int;
    let a = start + n * ratio;
    assert((n + 1) * ratio == n * ratio + ratio) by (nonlinear_arith);
    lemma_mod_twice(a, len_q);
    lemma_add_mod_noop(a % len_q, ratio as int, len_q);
    lemma_add_mod_noop(a, ratio as int, len_q);
    assert(((a % len_q) + ratio) % len_q == (a + ratio) % len_q);
}

/// One render callback against the controller's current snapshot: plans
/// the frames, and stores the final cursor back into the parameters —
/// only when frames were rendered, exactly as the callback does.
pub fn audio_loop(controller: &mut AudioController, frames: usize) -> (r: RenderPlan)
    requires
        old(controller).wf(),
    ensures
        final(controller).wf(),
        final(controller).bus == old(controller).bus,
        final(controller).shared_audio == old(controller).shared_audio,
        final(controller).events == old(controller).events,
        r is Silence <==> spec_is_silent(old(controller).props.play_state, &old(controller).shared_audio),
        match r {
            RenderPlan::Silence => final(controller).props == old(controller).props,
            RenderPlan::Play { cursors, end_position } => {
                let ratio = spec_playback_ratio(
                    old(controller).shared_audio.sample_rate,
                    old(controller).props.playback_speed,
                    old(controller).props.sample_rate,
                );
                let duration = old(controller).shared_audio.spec_duration();
                &&& cursors.len() == frames
                &&& forall|i: int|
                    0 <= i < frames ==> #[trigger] cursors[i] as int == spec_cursor_at(
                        old(controller).props.position,
                        ratio as u64,
                        duration,
                        i as nat,
                    )
                &&& end_position as int == spec_cursor_at(
                    old(controller).props.position,
                    ratio as u64,
                    duration,
                    frames as nat,
                )
                &&& final(controller).props == (PlayerProps {
                    position: end_position,
                    ..old(controller).props
                })
            },
        },
{
    let ratio = controller.get_playback_rate();
    let plan = plan_render(
        controller.props.play_state,
        &controller.shared_audio,
        controller.props.position,
        ratio,
        frames,
    );
    match &plan {
        RenderPlan::Silence => {
        },
        RenderPlan::Play { cursors: _, end_position } => {
            controller.store_position(*end_position);
        },
    }
    plan
}

} // verus!
