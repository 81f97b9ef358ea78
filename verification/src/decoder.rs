//! Decode dispatch and sample-buffer assembly.
//!
//! Decoding starts from a file path whose media type is resolved by an
//! OS-level query; the query itself and the codec byte-streams run outside
//! the library.  What is decided here, and verified: which codec routine a
//! media type is dispatched to ([`route_media_type`]), and how a decoded
//! interleaved frame stream is split into per-channel sample sequences
//! ([`deinterleave`]).  Samples travel as `f32` bit patterns (`u32`), which
//! this code moves but never reinterprets.

use vstd::prelude::*;

verus! {

use vstd::arithmetic::div_mod::{lemma_fundamental_div_mod, lemma_mod_bound};
use vstd::arithmetic::mul::{lemma_mul_inequality, lemma_mul_is_commutative};

broadcast use vstd::string::group_string_axioms;

/// Why a load failed.  All variants are recoverable: the previously
/// installed buffer, if any, keeps playing.
#[derive(Clone, Debug, PartialEq, Eq)]
pub enum DecodingError {
    /// The container holds no usable audio track.
    NoTrack,
    /// The media type is not one the engine dispatches on.
    UnsupportedFormat(String),
    /// Reading the file failed; carries the I/O error's description.
    Io(String),
    /// The dedicated low-latency codec routine failed; carries its
    /// error's description.
    Opus(String),
    /// The general multi-format codec routine failed; carries its
    /// error's description.
    Symphonia(String),
    /// The media type of the file at this path could not be resolved.
    Path(String),
}

/// One decoded audio stream: per-channel sample data at its native rate.
/// Samples are `f32` bit patterns.
#[derive(Clone, Debug)]
pub struct DecoderResult {
    pub channels: Vec<Vec<u32>>,
    pub sample_rate: u32,
}

pub type DecodingResult = Result<DecoderResult, DecodingError>;

/// The codec routine a media type dispatches to.
#[derive(Clone, Copy, Debug, PartialEq, Eq, Structural)]
pub enum CodecRoute {
    /// The dedicated low-latency routine for the one container format it
    /// serves.
    Opus,
    /// The general multi-format routine.
    General,
}

/// The media type served by the dedicated low-latency routine.
pub open spec fn is_opus_media_type(m: Seq<char>) -> bool {
    m == "audio/x-opus+ogg"@
}

/// The media types served by the general multi-format routine.
pub open spec fn is_general_media_type(m: Seq<char>) -> bool {
    ||| m == "audio/aac"@
    ||| m == "audio/flac"@
    ||| m == "audio/mp2"@
    ||| m == "audio/mp4"@
    ||| m == "audio/mpeg"@
    ||| m == "audio/x-aiff"@
    ||| m == "audio/x-caf"@
    ||| m == "audio/x-vorbis+ogg"@
    ||| m == "audio/x-wav"@
    ||| m == "audio/vnd.wave"@
}

/// No media type is served by both codec routines: the one type of the
/// dedicated routine differs in length from every type of the general
/// routine.
pub proof fn lemma_media_type_routes_disjoint()
    ensures
        forall|m: Seq<char>| is_opus_media_type(m) ==> !is_general_media_type(m),
{
    reveal_strlit("audio/x-opus+ogg");
    reveal_strlit("audio/aac");
    reveal_strlit("audio/flac");
    reveal_strlit("audio/mp2");
    reveal_strlit("audio/mp4");
    reveal_strlit("audio/mpeg");
    reveal_strlit("audio/x-aiff");
    reveal_strlit("audio/x-caf");
    reveal_strlit("audio/x-vorbis+ogg");
    reveal_strlit("audio/x-wav");
    reveal_strlit("audio/vnd.wave");
    assert forall|m: Seq<char>| is_opus_media_type(m) implies !is_general_media_type(m) by {
        assert("audio/x-opus+ogg"@.len() == 16);
        assert("audio/aac"@.len() == 9);
        assert("audio/flac"@.len() == 10);
        assert("audio/mp2"@.len() == 9);
        assert("audio/mp4"@.len() == 9);
        assert("audio/mpeg"@.len() == 10);
        assert("audio/x-aiff"@.len() == 12);
        assert("audio/x-caf"@.len() == 11);
        assert("audio/x-vorbis+ogg"@.len() == 18);
        assert("audio/x-wav"@.len() == 11);
        assert("audio/vnd.wave"@.len() == 14);
    }
}

/// Dispatches a resolved media type to a codec routine.  Unrecognized
/// types are explicit errors, never silent fallbacks.
pub fn route_media_type(mime: &str) -> (r: Result<CodecRoute, DecodingError>)
    ensures
        is_opus_media_type(mime@) ==> r == Ok::<CodecRoute, DecodingError>(CodecRoute::Opus),
        is_general_media_type(mime@) ==> r == Ok::<CodecRoute, DecodingError>(
            CodecRoute::General,
        ),
        !is_opus_media_type(mime@) && !is_general_media_type(mime@) ==> match r {
            Err(DecodingError::UnsupportedFormat(m)) => m@ == mime@,
            _ => false,
        },
{
    proof {
        lemma_media_type_routes_disjoint();
        reveal_strlit("audio/x-opus+ogg");
        reveal_strlit("audio/aac");
        reveal_strlit("audio/flac");
        reveal_strlit("audio/mp2");
        reveal_strlit("audio/mp4");
        reveal_strlit("audio/mpeg");
        reveal_strlit("audio/x-aiff");
        reveal_strlit("audio/x-caf");
        reveal_strlit("audio/x-vorbis+ogg");
        reveal_strlit("audio/x-wav");
        reveal_strlit("audio/vnd.wave");
    }
    let m = mime.to_owned();
    if m == String::from_str("audio/x-opus+ogg") {
        Ok(CodecRoute::Opus)
    } else if m == String::from_str("audio/aac") || m == String::from_str("audio/flac") || m
        == String::from_str("audio/mp2") || m == String::from_str("audio/mp4") || m
        == String::from_str("audio/mpeg") || m == String::from_str("audio/x-aiff") || m
        == String::from_str("audio/x-caf") || m == String::from_str("audio/x-vorbis+ogg") || m
        == String::from_str("audio/x-wav") || m == String::from_str("audio/vnd.wave") {
        Ok(CodecRoute::General)
    } else {
        Err(DecodingError::UnsupportedFormat(m))
    }
}

/// Splits an interleaved frame stream into per-channel sequences:
/// channel `c` receives every `channel_count`-th sample starting at
/// offset `c`.  A trailing partial frame is dropped.
pub fn deinterleave(interleaved: &Vec<u32>, channel_count: usize) -> (r: Vec<Vec<u32>>)
    requires
        0 < channel_count,
    ensures
        r.len() == channel_count,
        forall|c: int|
            0 <= c < channel_count ==> #[trigger] r[c].len() == interleaved.len() as int
                / channel_count as int,
        forall|c: int, i: int|
            0 <= c < channel_count && 0 <= i < interleaved.len() as int / channel_count as int
                ==> #[trigger] r[c][i] == interleaved[i * channel_count as int + c],
{
    let len = interleaved.len();
    let frames = len / channel_count;
    proof {
        lemma_fundamental_div_mod(len as int, channel_count as int);
        lemma_mod_bound(len as int, channel_count as int);
    }
    let mut r: Vec<Vec<u32>> = Vec::new();
    let mut c: usize = 0;
    while c < channel_count
        invariant
            c <= channel_count,
            frames == interleaved.len() as int / channel_count as int,
            interleaved.len() as int == channel_count as int * frames + interleaved.len() as int
                % channel_count as int,
            (interleaved.len() as int % channel_count as int) < channel_count,
            0 < channel_count,
            r.len() == c,
            forall|k: int| 0 <= k < c ==> #[trigger] r[k].len() == frames,
            forall|k: int, i: int|
                0 <= k < c && 0 <= i < frames ==> #[trigger] r[k][i] == interleaved[i
                    * channel_count as int + k],
        decreases channel_count - c,
    {
        let mut channel: Vec<u32> = Vec::new();
        let mut i: usize = 0;
        while i < frames
            invariant
                i <= frames,
                c < channel_count,
                frames == interleaved.len() as int / channel_count as int,
                interleaved.len() as int == channel_count as int * frames + interleaved.len() as int
                    % channel_count as int,
                (interleaved.len() as int % channel_count as int) < channel_count,
                0 < channel_count,
                channel.len() == i,
                forall|j: int|
                    0 <= j < i ==> #[trigger] channel[j] == interleaved[j * channel_count as int
                        + c],
            decreases frames - i,
        {
            proof {
                lemma_mul_inequality(i as int + 1, frames as int, channel_count as int);
                lemma_mul_is_commutative(frames as int, channel_count as int);
                assert((i as int + 1) * channel_count as int == i as int * channel_count as int
                    + channel_count as int) by (nonlinear_arith);
                assert(i as int * channel_count as int + c < interleaved.len());
            }
            let idx = i * channel_count + c;
            channel.push(interleaved[idx]);
            i = i + 1;
        }
        r.push(channel);
        c = c + 1;
    }
    r
}

} // verus!
