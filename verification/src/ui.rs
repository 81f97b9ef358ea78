//! The player widget's displayed state.
//!
//! The widget caches two `mm:ss` display lines — the loaded stream's
//! duration and the current position — and refreshes them from the
//! controller on its timer tick and after a load.  The surrounding widget
//! tree, its messages and its drawing are an external adapter; the display
//! bytes it shows are computed and verified here.

use vstd::prelude::*;

verus! {

use crate::player::{
    AudioController,
    format_sample_time,
    spec_minutes,
    spec_ones_digit,
    spec_seconds,
    spec_tens_digit,
};
use crate::resample::CURSOR_ONE;

/// Timer-driven refresh events of the widget layer.
#[derive(Clone, Copy, Debug, PartialEq, Eq, Structural)]
pub enum UiEvent {
    LoadSong,
    SongTick,
}

/// The five display bytes `mm:ss`.
pub open spec fn spec_mmss(m: u8, s: u8) -> Seq<u8> {
    seq![
        spec_tens_digit(m),
        spec_ones_digit(m),
        58u8,
        spec_tens_digit(s),
        spec_ones_digit(s),
    ]
}

/// The two ASCII digits of a display number, zero-padded.
pub fn pad_start(num: u8) -> (r: [u8; 2])
    ensures
        r@.len() == 2,
        r@[0] == spec_tens_digit(num),
        r@[1] == spec_ones_digit(num),
{
    [((num / 10) % 10) + 48, (num % 10) + 48]
}

/// The current cursor as `mm:ss` at the device rate.
pub fn get_song_position_pretty(player: &AudioController) -> (r: [u8; 5])
    ensures
        r@ =~= spec_mmss(
            spec_minutes(player.props.position, player.props.sample_rate),
            spec_seconds(player.props.position, player.props.sample_rate),
        ),
{
    let (pm, ps) = format_sample_time(player.get_song_position(), player.sample_rate());
    let p = pad_start(pm);
    let q = pad_start(ps);
    [p[0], p[1], 58, q[0], q[1]]
}

/// The loaded stream's duration as `mm:ss` at its native rate.
pub fn get_song_duration_pretty(player: &AudioController) -> (r: [u8; 5])
    requires
        player.wf(),
    ensures
        r@ =~= spec_mmss(
            spec_minutes(
                (player.shared_audio.spec_duration() * CURSOR_ONE) as u64,
                player.shared_audio.sample_rate,
            ),
            spec_seconds(
                (player.shared_audio.spec_duration() * CURSOR_ONE) as u64,
                player.shared_audio.sample_rate,
            ),
        ),
{
    let duration = player.get_song_duration();
    let duration_q = (duration as u64) * CURSOR_ONE;
    let (dm, ds) = format_sample_time(duration_q, player.shared_audio.sample_rate);
    let d = pad_start(dm);
    let e = pad_start(ds);
    [d[0], d[1], 58, e[0], e[1]]
}

/// The playback widget's own state: its two cached display lines.
#[derive(Clone, Copy, Debug, PartialEq, Eq)]
pub struct PlayerWidget {
    pub song_dur: [u8; 5],
    pub song_pos: [u8; 5],
}

impl Default for PlayerWidget {
    /// Both lines read `00:00` before anything is loaded.
    fn default() -> (r: PlayerWidget)
        ensures
            r.song_dur@ =~= seq![48u8, 48u8, 58u8, 48u8, 48u8],
            r.song_pos@ =~= seq![48u8, 48u8, 58u8, 48u8, 48u8],
    {
        PlayerWidget { song_dur: [48, 48, 58, 48, 48], song_pos: [48, 48, 58, 48, 48] }
    }
}

impl PlayerWidget {
    /// The cached display lines, duration first.
    pub fn get_time(&self) -> (r: ([u8; 5], [u8; 5]))
        ensures
            r.0 == self.song_dur,
            r.1 == self.song_pos,
    {
        (self.song_dur, self.song_pos)
    }

    /// Timer tick: refreshes the position line from the controller.
    pub fn on_song_tick(&mut self, player: &AudioController)
        ensures
            final(self).song_dur == old(self).song_dur,
            final(self).song_pos@ =~= spec_mmss(
                spec_minutes(player.props.position, player.props.sample_rate),
                spec_seconds(player.props.position, player.props.sample_rate),
            ),
    {
        self.song_pos = get_song_position_pretty(player);
    }

    /// A buffer was loaded: refreshes the duration line.
    pub fn on_loaded(&mut self, player: &AudioController)
        requires
            player.wf(),
        ensures
            final(self).song_pos == old(self).song_pos,
            final(self).song_dur@ =~= spec_mmss(
                spec_minutes(
                    (player.shared_audio.spec_duration() * CURSOR_ONE) as u64,
                    player.shared_audio.sample_rate,
                ),
                spec_seconds(
                    (player.shared_audio.spec_duration() * CURSOR_ONE) as u64,
                    player.shared_audio.sample_rate,
                ),
            ),
    {
        self.song_dur = get_song_duration_pretty(player);
    }
}

} // verus!
