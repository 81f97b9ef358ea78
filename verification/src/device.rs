//! Output-device stream negotiation.
//!
//! The host audio API advertises a set of supported output configurations;
//! the engine picks one by a strict priority policy and builds its stream
//! from it.  Enumeration and stream construction talk to the hardware and
//! run outside the library; the policy itself — which advertised
//! configuration wins, and at which rate it is opened — is decided and
//! verified here over a plain model of the advertised set.

use vstd::prelude::*;

verus! {

/// The engine's preferred output sample rate.
pub const SAMPLE_RATE: u32 = 44_100;

/// How the device represents one output sample.
#[derive(Clone, Copy, Debug, PartialEq, Eq, Structural)]
pub enum SampleFormat {
    F32,
    I16,
    I24,
    I32,
    I8,
    U16,
    U32,
    U8,
}

/// One advertised output configuration: a channel count, a sample
/// format, and a supported range of sample rates.
#[derive(Clone, Copy, Debug, PartialEq, Eq, Structural)]
pub struct SupportedConfig {
    pub channels: u16,
    pub min_sample_rate: u32,
    pub max_sample_rate: u32,
    pub sample_format: SampleFormat,
}

/// A concrete stream configuration: an advertised configuration pinned
/// to one sample rate.
#[derive(Clone, Copy, Debug, PartialEq, Eq, Structural)]
pub struct StreamConfig {
    pub channels: u16,
    pub sample_rate: u32,
    pub sample_format: SampleFormat,
}

/// Pins an advertised configuration to a sample rate.
pub open spec fn spec_with_rate(c: SupportedConfig, rate: u32) -> StreamConfig {
    StreamConfig { channels: c.channels, sample_rate: rate, sample_format: c.sample_format }
}

/// Highest priority: at least stereo, 32-bit float samples, and a rate
/// range covering the preferred rate.
pub open spec fn spec_tier1(c: SupportedConfig) -> bool {
    c.channels >= 2 && c.sample_format == SampleFormat::F32 && c.min_sample_rate <= SAMPLE_RATE
        && SAMPLE_RATE <= c.max_sample_rate
}

/// Second priority: at least stereo with 32-bit float samples, at any
/// rate.
pub open spec fn spec_tier2(c: SupportedConfig) -> bool {
    c.channels >= 2 && c.sample_format == SampleFormat::F32
}

/// Third priority: at least stereo in any sample representation.
pub open spec fn spec_tier3(c: SupportedConfig) -> bool {
    c.channels >= 2
}

/// The first configuration in advertisement order satisfying `p`.
pub open spec fn spec_first_config(
    s: Seq<SupportedConfig>,
    p: spec_fn(SupportedConfig) -> bool,
) -> Option<SupportedConfig>
    decreases s.len(),
{
    if s.len() == 0 {
        None
    } else if p(s[0]) {
        Some(s[0])
    } else {
        spec_first_config(s.drop_first(), p)
    }
}

/// The negotiation policy: the first configuration of the highest
/// non-empty tier, opened at the preferred rate for tier one and at the
/// configuration's own maximum rate otherwise, falling back to the first
/// advertised configuration (mono fallback) and to no configuration at
/// all only when nothing is advertised.
pub open spec fn spec_pick_config(s: Seq<SupportedConfig>) -> Option<StreamConfig> {
    if spec_first_config(s, |c: SupportedConfig| spec_tier1(c)) is Some {
        let c = spec_first_config(s, |c: SupportedConfig| spec_tier1(c))->Some_0;
        Some(spec_with_rate(c, SAMPLE_RATE))
    } else if spec_first_config(s, |c: SupportedConfig| spec_tier2(c)) is Some {
        let c = spec_first_config(s, |c: SupportedConfig| spec_tier2(c))->Some_0;
        Some(spec_with_rate(c, c.max_sample_rate))
    } else if spec_first_config(s, |c: SupportedConfig| spec_tier3(c)) is Some {
        let c = spec_first_config(s, |c: SupportedConfig| spec_tier3(c))->Some_0;
        Some(spec_with_rate(c, c.max_sample_rate))
    } else if s.len() > 0 {
        Some(spec_with_rate(s[0], s[0].max_sample_rate))
    } else {
        None
    }
}

/// A scan that finds `p`'s first match finds `spec_first_config`'s
/// answer: a match at `i` with no match before it is the first match.
proof fn lemma_first_config_at(
    s: Seq<SupportedConfig>,
    p: spec_fn(SupportedConfig) -> bool,
    i: int,
)
    requires
        0 <= i < s.len(),
        p(s[i]),
        forall|j: int| 0 <= j < i ==> !p(#[trigger] s[j]),
    ensures
        spec_first_config(s, p) == Some(s[i]),
    decreases i,
{
    if i == 0 {
    } else {
        assert(!p(s[0]));
        lemma_first_config_at(s.drop_first(), p, i - 1);
        assert(s.drop_first()[i - 1] == s[i]);
    }
}

/// A scan that finds no match at all agrees with `spec_first_config`.
proof fn lemma_first_config_none(s: Seq<SupportedConfig>, p: spec_fn(SupportedConfig) -> bool)
    requires
        forall|j: int| 0 <= j < s.len() ==> !p(#[trigger] s[j]),
    ensures
        spec_first_config(s, p) is None,
    decreases s.len(),
{
    if s.len() == 0 {
    } else {
        lemma_first_config_none(s.drop_first(), p);
    }
}

/// Scans for the first advertised configuration of the top tier.
fn find_tier1(configs: &Vec<SupportedConfig>) -> (r: Option<usize>)
    ensures
        match r {
            Some(i) => i < configs.len() && spec_first_config(
                configs@,
                |c: SupportedConfig| spec_tier1(c),
            ) == Some(configs@[i as int]),
            None => spec_first_config(configs@, |c: SupportedConfig| spec_tier1(c)) is None,
        },
{
    let mut i: usize = 0;
    while i < configs.len()
        invariant
            i <= configs.len(),
            forall|j: int| 0 <= j < i ==> !spec_tier1(#[trigger] configs@[j]),
        decreases configs.len() - i,
    {
        let c = configs[i];
        if c.channels >= 2 && matches!(c.sample_format, SampleFormat::F32) && c.min_sample_rate
            <= SAMPLE_RATE && SAMPLE_RATE <= c.max_sample_rate {
            proof {
                lemma_first_config_at(configs@, |c: SupportedConfig| spec_tier1(c), i as int);
            }
            return Some(i);
        }
        i = i + 1;
    }
    proof {
        lemma_first_config_none(configs@, |c: SupportedConfig| spec_tier1(c));
    }
    None
}

/// Scans for the first advertised configuration of the second tier.
fn find_tier2(configs: &Vec<SupportedConfig>) -> (r: Option<usize>)
    ensures
        match r {
            Some(i) => i < configs.len() && spec_first_config(
                configs@,
                |c: SupportedConfig| spec_tier2(c),
            ) == Some(configs@[i as int]),
            None => spec_first_config(configs@, |c: SupportedConfig| spec_tier2(c)) is None,
        },
{
    let mut i: usize = 0;
    while i < configs.len()
        invariant
            i <= configs.len(),
            forall|j: int| 0 <= j < i ==> !spec_tier2(#[trigger] configs@[j]),
        decreases configs.len() - i,
    {
        let c = configs[i];
        if c.channels >= 2 && matches!(c.sample_format, SampleFormat::F32) {
            proof {
                lemma_first_config_at(configs@, |c: SupportedConfig| spec_tier2(c), i as int);
            }
            return Some(i);
        }
        i = i + 1;
    }
    proof {
        lemma_first_config_none(configs@, |c: SupportedConfig| spec_tier2(c));
    }
    None
}

/// Scans for the first advertised configuration of the third tier.
fn find_tier3(configs: &Vec<SupportedConfig>) -> (r: Option<usize>)
    ensures
        match r {
            Some(i) => i < configs.len() && spec_first_config(
                configs@,
                |c: SupportedConfig| spec_tier3(c),
            ) == Some(configs@[i as int]),
            None => spec_first_config(configs@, |c: SupportedConfig| spec_tier3(c)) is None,
        },
{
    let mut i: usize = 0;
    while i < configs.len()
        invariant
            i <= configs.len(),
            forall|j: int| 0 <= j < i ==> !spec_tier3(#[trigger] configs@[j]),
        decreases configs.len() - i,
    {
        let c = configs[i];
        if c.channels >= 2 {
            proof {
                lemma_first_config_at(configs@, |c: SupportedConfig| spec_tier3(c), i as int);
            }
            return Some(i);
        }
        i = i + 1;
    }
    proof {
        lemma_first_config_none(configs@, |c: SupportedConfig| spec_tier3(c));
    }
    None
}

/// Picks the stream configuration the engine will open, in strict
/// priority order over the advertised set; `None` only when the device
/// advertises nothing at all.
pub fn pick_config(configs: &Vec<SupportedConfig>) -> (r: Option<StreamConfig>)
    ensures
        r == spec_pick_config(configs@),
        r is None <==> configs.len() == 0,
{
    if let Some(i) = find_tier1(configs) {
        let c = configs[i];
        return Some(
            StreamConfig {
                channels: c.channels,
                sample_rate: SAMPLE_RATE,
                sample_format: c.sample_format,
            },
        );
    }
    if let Some(i) = find_tier2(configs) {
        let c = configs[i];
        return Some(
            StreamConfig {
                channels: c.channels,
                sample_rate: c.max_sample_rate,
                sample_format: c.sample_format,
            },
        );
    }
    if let Some(i) = find_tier3(configs) {
        let c = configs[i];
        return Some(
            StreamConfig {
                channels: c.channels,
                sample_rate: c.max_sample_rate,
                sample_format: c.sample_format,
            },
        );
    }
    if configs.len() > 0 {
        let c = configs[0];
        return Some(
            StreamConfig {
                channels: c.channels,
                sample_rate: c.max_sample_rate,
                sample_format: c.sample_format,
            },
        );
    }
    None
}

} // verus!
