//! Transport information handed to a plugin while processing, and per-channel
//! constant masks of audio buffers.
use vstd::prelude::*;

verus! {

pub const CLAP_TRANSPORT_HAS_TEMPO: u32 = 1;
pub const CLAP_TRANSPORT_HAS_BEATS_TIMELINE: u32 = 2;
pub const CLAP_TRANSPORT_HAS_SECONDS_TIMELINE: u32 = 4;
pub const CLAP_TRANSPORT_HAS_TIME_SIGNATURE: u32 = 8;
pub const CLAP_TRANSPORT_IS_PLAYING: u32 = 16;
pub const CLAP_TRANSPORT_IS_RECORDING: u32 = 32;
pub const CLAP_TRANSPORT_IS_LOOP_ACTIVE: u32 = 64;
pub const CLAP_TRANSPORT_IS_WITHIN_PRE_ROLL: u32 = 128;

/// The bit of `channel` in a constant mask; channels from 64 on have none.
pub open spec fn channel_bit(channel: u32) -> u64 {
    if channel < 64 {
        1u64 << channel
    } else {
        0u64
    }
}

/// The mask of the channels below `n`: all bits from 64 channels on.
pub open spec fn low_channels(n: u32) -> u64 {
    if n < 64 {
        ((1u64 << n) - 1) as u64
    } else {
        0xffff_ffff_ffff_ffffu64
    }
}

/// A constant mask for audio processing. Each bit says whether the
/// corresponding audio channel is constant (1) or not (0).
#[derive(Clone, Copy, PartialEq, Eq, Structural, Debug)]
pub struct ConstantMask(pub u64);

impl ConstantMask {
    /// No channel is constant.
    pub fn dynamic() -> (r: ConstantMask)
        ensures
            r.0 == 0,
    {
        ConstantMask(0)
    }

    /// Every channel is constant.
    pub fn constant() -> (r: ConstantMask)
        ensures
            r.0 == 0xffff_ffff_ffff_ffffu64,
    {
        ConstantMask(0xffff_ffff_ffff_ffff)
    }

    pub open spec fn spec_is_channel_constant(self, channel: u32) -> bool {
        self.0 & channel_bit(channel) != 0
    }

    /// The same mask with `channel` marked constant as well.
    pub fn with_channel_constant(self, channel: u32) -> (r: ConstantMask)
        ensures
            r.0 == self.0 | channel_bit(channel),
    {
        if channel < 64 {
            ConstantMask(self.0 | (1u64 << channel))
        } else {
            proof {
                let x = self.0;
                assert(x | 0u64 == x) by (bit_vector);
            }
            self
        }
    }

    /// Whether `channel` is marked constant.
    pub fn is_channel_constant(&self, channel: u32) -> (r: bool)
        ensures
            r == self.spec_is_channel_constant(channel),
    {
        if channel < 64 {
            self.0 & (1u64 << channel) != 0
        } else {
            proof {
                let x = self.0;
                assert(x & 0u64 == 0u64) by (bit_vector);
            }
            false
        }
    }

    /// Whether all of the first `n` channels are marked constant.
    pub fn are_all_channels_constant(&self, n: u32) -> (r: bool)
        ensures
            r == (self.0 & low_channels(n) == low_channels(n)),
    {
        let mask: u64 = if n < 64 {
            let s: u64 = 1u64 << n;
            assert(s >= 1u64) by (bit_vector)
                requires
                    n < 64u32,
                    s == 1u64 << n,
            ;
            s - 1
        } else {
            0xffff_ffff_ffff_ffff
        };
        self.0 & mask == mask
    }
}

/// Marking a channel constant makes it constant and leaves every other
/// channel as it was.
pub proof fn lemma_with_channel_constant(mask: ConstantMask, channel: u32, other: u32)
    requires
        channel < 64,
    ensures
        ConstantMask(mask.0 | channel_bit(channel)).spec_is_channel_constant(channel),
        other != channel ==> (ConstantMask(mask.0 | channel_bit(channel)).spec_is_channel_constant(other)
            == mask.spec_is_channel_constant(other)),
{
    let x = mask.0;
    assert((x | (1u64 << channel)) & (1u64 << channel) != 0) by (bit_vector)
        requires
            channel < 64u32,
    ;
    if other < 64 && other != channel {
        assert(((x | (1u64 << channel)) & (1u64 << other) != 0) == (x & (1u64 << other) != 0)) by (bit_vector)
            requires
                channel < 64u32,
                other < 64u32,
                other != channel,
        ;
    }
    if other >= 64 {
        assert((x | (1u64 << channel)) & 0u64 == 0u64) by (bit_vector);
        assert(x & 0u64 == 0u64) by (bit_vector);
    }
}

/// What a transport event carries, by whether each piece of it is known.
#[derive(Clone, Copy, Debug)]
pub struct TransportPresence {
    pub is_playing: bool,
    pub is_recording: bool,
    pub is_within_preroll: bool,
    pub has_beats_timeline: bool,
    pub has_seconds_timeline: bool,
    pub has_tempo: bool,
    pub has_time_signature: bool,
}

pub open spec fn flag_if(b: bool, flag: u32) -> u32 {
    if b {
        flag
    } else {
        0u32
    }
}

/// The flags of a transport event: one bit for each piece that is present.
pub open spec fn spec_transport_flags(p: TransportPresence) -> u32 {
    (flag_if(p.is_playing, CLAP_TRANSPORT_IS_PLAYING) | flag_if(p.is_recording, CLAP_TRANSPORT_IS_RECORDING)
        | flag_if(p.is_within_preroll, CLAP_TRANSPORT_IS_WITHIN_PRE_ROLL) | flag_if(
        p.has_beats_timeline,
        CLAP_TRANSPORT_HAS_BEATS_TIMELINE,
    ) | flag_if(p.has_seconds_timeline, CLAP_TRANSPORT_HAS_SECONDS_TIMELINE) | flag_if(
        p.has_tempo,
        CLAP_TRANSPORT_HAS_TEMPO,
    ) | flag_if(p.has_time_signature, CLAP_TRANSPORT_HAS_TIME_SIGNATURE))
}

/// Each piece of a transport event is present exactly when its CLAP bit is set in the flags:
/// tempo 1, beats timeline 2, seconds timeline 4, time signature 8, playing 16, recording 32 and
/// pre-roll 128. The loop bit 64 is never set, nor any bit above 128.
pub proof fn lemma_transport_flag_bits(p: TransportPresence)
    ensures
        (spec_transport_flags(p) & 1 != 0) == p.has_tempo,
        (spec_transport_flags(p) & 2 != 0) == p.has_beats_timeline,
        (spec_transport_flags(p) & 4 != 0) == p.has_seconds_timeline,
        (spec_transport_flags(p) & 8 != 0) == p.has_time_signature,
        (spec_transport_flags(p) & 16 != 0) == p.is_playing,
        (spec_transport_flags(p) & 32 != 0) == p.is_recording,
        spec_transport_flags(p) & 64 == 0,
        (spec_transport_flags(p) & 128 != 0) == p.is_within_preroll,
        spec_transport_flags(p) < 256,
{
    let a = flag_if(p.is_playing, CLAP_TRANSPORT_IS_PLAYING);
    let b = flag_if(p.is_recording, CLAP_TRANSPORT_IS_RECORDING);
    let c = flag_if(p.is_within_preroll, CLAP_TRANSPORT_IS_WITHIN_PRE_ROLL);
    let d = flag_if(p.has_beats_timeline, CLAP_TRANSPORT_HAS_BEATS_TIMELINE);
    let e = flag_if(p.has_seconds_timeline, CLAP_TRANSPORT_HAS_SECONDS_TIMELINE);
    let f = flag_if(p.has_tempo, CLAP_TRANSPORT_HAS_TEMPO);
    let g = flag_if(p.has_time_signature, CLAP_TRANSPORT_HAS_TIME_SIGNATURE);
    let x = a | b | c | d | e | f | g;
    assert(x == spec_transport_flags(p));
    assert({
        &&& (x & 1 != 0) == (f == 1)
        &&& (x & 2 != 0) == (d == 2)
        &&& (x & 4 != 0) == (e == 4)
        &&& (x & 8 != 0) == (g == 8)
        &&& (x & 16 != 0) == (a == 16)
        &&& (x & 32 != 0) == (b == 32)
        &&& x & 64 == 0
        &&& (x & 128 != 0) == (c == 128)
        &&& x < 256
    }) by (bit_vector)
        requires
            x == a | b | c | d | e | f | g,
            a == 16 || a == 0,
            b == 32 || b == 0,
            c == 128 || c == 0,
            d == 2 || d == 0,
            e == 4 || e == 0,
            f == 1 || f == 0,
            g == 8 || g == 0,
    ;
}

fn flag_if_exec(b: bool, flag: u32) -> (r: u32)
    ensures
        r == flag_if(b, flag),
{
    if b {
        flag
    } else {
        0
    }
}

/// The flags word of the transport event sent to the plugin.
pub fn transport_flags(p: TransportPresence) -> (r: u32)
    ensures
        r == spec_transport_flags(p),
{
    let mut flags: u32 = 0;
    flags = flags | flag_if_exec(p.is_playing, CLAP_TRANSPORT_IS_PLAYING);
    flags = flags | flag_if_exec(p.is_recording, CLAP_TRANSPORT_IS_RECORDING);
    flags = flags | flag_if_exec(p.is_within_preroll, CLAP_TRANSPORT_IS_WITHIN_PRE_ROLL);
    flags = flags | flag_if_exec(p.has_beats_timeline, CLAP_TRANSPORT_HAS_BEATS_TIMELINE);
    flags = flags | flag_if_exec(p.has_seconds_timeline, CLAP_TRANSPORT_HAS_SECONDS_TIMELINE);
    flags = flags | flag_if_exec(p.has_tempo, CLAP_TRANSPORT_HAS_TEMPO);
    flags = flags | flag_if_exec(p.has_time_signature, CLAP_TRANSPORT_HAS_TIME_SIGNATURE);
    proof {
        let a = flag_if(p.is_playing, CLAP_TRANSPORT_IS_PLAYING);
        assert(0u32 | a == a) by (bit_vector);
    }
    flags
}

/// The sample position after advancing by `samples`, saturating at the ends
/// of the `u64` range; an unknown position stays unknown.
pub open spec fn spec_advance_sample_pos(pos: Option<u64>, samples: i64) -> Option<u64> {
    match pos {
        None => None,
        Some(p) => Some(
            if p + samples < 0 {
                0u64
            } else if p + samples > u64::MAX {
                u64::MAX
            } else {
                (p + samples) as u64
            },
        ),
    }
}

/// Advances a transport's sample position by a signed number of samples.
pub fn advance_sample_pos(pos: Option<u64>, samples: i64) -> (r: Option<u64>)
    ensures
        r == spec_advance_sample_pos(pos, samples),
{
    match pos {
        None => None,
        Some(p) => {
            if samples >= 0 {
                let s: u64 = samples as u64;
                if p > u64::MAX - s {
                    Some(u64::MAX)
                } else {
                    Some(p + s)
                }
            } else {
                let back: u64 = if samples == i64::MIN {
                    9_223_372_036_854_775_808u64
                } else {
                    (-samples) as u64
                };
                if p < back {
                    Some(0)
                } else {
                    Some(p - back)
                }
            }
        },
    }
}

} // verus!

verus! {

proof fn lemma_each_set_implies_all(x: u64, n: u32)
    requires
        n <= 64,
        forall|c: u32| c < n ==> #[trigger] (x & channel_bit(c)) != 0,
    ensures
        x & low_channels(n) == low_channels(n),
    decreases n,
{
    if n == 0 {
        assert(x & (((1u64 << 0u32) - 1) as u64) == (((1u64 << 0u32) - 1) as u64)) by (bit_vector);
    } else {
        let k: u32 = (n - 1) as u32;
        lemma_each_set_implies_all(x, k);
        assert(x & channel_bit(k) != 0);
        if n < 64 {
            assert(x & (((1u64 << n) - 1) as u64) == (((1u64 << n) - 1) as u64)) by (bit_vector)
                requires
                    k < 63u32,
                    n == k + 1,
                    x & (((1u64 << k) - 1) as u64) == (((1u64 << k) - 1) as u64),
                    x & (1u64 << k) != 0,
            ;
        } else {
            assert(x & 0xffff_ffff_ffff_ffffu64 == 0xffff_ffff_ffff_ffffu64) by (bit_vector)
                requires
                    k == 63u32,
                    x & (((1u64 << k) - 1) as u64) == (((1u64 << k) - 1) as u64),
                    x & (1u64 << k) != 0,
            ;
        }
    }
}

/// All of the first `n` channels are constant exactly when each of them is.
pub proof fn lemma_all_constant_iff_each(mask: ConstantMask, n: u32)
    requires
        n <= 64,
    ensures
        (mask.0 & low_channels(n) == low_channels(n)) <==> (forall|c: u32|
            c < n ==> #[trigger] mask.spec_is_channel_constant(c)),
{
    let x = mask.0;
    if x & low_channels(n) == low_channels(n) {
        assert forall|c: u32| c < n implies #[trigger] mask.spec_is_channel_constant(c) by {
            if n < 64 {
                assert(x & (1u64 << c) != 0) by (bit_vector)
                    requires
                        n < 64u32,
                        c < n,
                        x & (((1u64 << n) - 1) as u64) == (((1u64 << n) - 1) as u64),
                ;
            } else {
                assert(x & (1u64 << c) != 0) by (bit_vector)
                    requires
                        c < 64u32,
                        x & 0xffff_ffff_ffff_ffffu64 == 0xffff_ffff_ffff_ffffu64,
                ;
            }
        }
    }
    if forall|c: u32| c < n ==> #[trigger] mask.spec_is_channel_constant(c) {
        assert forall|c: u32| c < n implies #[trigger] (x & channel_bit(c)) != 0 by {
            assert(mask.spec_is_channel_constant(c));
        }
        lemma_each_set_implies_all(x, n);
    }
}

} // verus!
