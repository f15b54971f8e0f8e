//! Audio buffers as the validator hands them to a plugin, and the checks run on
//! them after a process call. Samples are held by their IEEE 754 bit patterns.
use crate::events::{check_output_events, output_events_error_from, OutputEventError, OutputEventHeader};
use crate::ports::{bytes_eq, AudioPort};
use crate::transport::ConstantMask;
use vstd::prelude::*;

verus! {

/// A port to which an audio buffer belongs.
#[derive(Clone, Copy, PartialEq, Eq, Structural, Debug)]
pub enum AudioBufferPort {
    Input(usize),
    Output(usize),
    Inplace(usize, usize),
}

impl AudioBufferPort {
    pub open spec fn spec_input(self) -> Option<usize> {
        match self {
            AudioBufferPort::Input(index) => Some(index),
            AudioBufferPort::Inplace(index, _) => Some(index),
            AudioBufferPort::Output(_) => None,
        }
    }

    pub open spec fn spec_output(self) -> Option<usize> {
        match self {
            AudioBufferPort::Output(index) => Some(index),
            AudioBufferPort::Inplace(_, index) => Some(index),
            AudioBufferPort::Input(_) => None,
        }
    }

    /// The input port that this buffer feeds, if any.
    pub fn input(&self) -> (r: Option<usize>)
        ensures
            r == self.spec_input(),
    {
        match self {
            AudioBufferPort::Input(index) => Some(*index),
            AudioBufferPort::Inplace(index, _) => Some(*index),
            AudioBufferPort::Output(_) => None,
        }
    }

    /// The output port that this buffer receives, if any.
    pub fn output(&self) -> (r: Option<usize>)
        ensures
            r == self.spec_output(),
    {
        match self {
            AudioBufferPort::Output(index) => Some(*index),
            AudioBufferPort::Inplace(_, index) => Some(*index),
            AudioBufferPort::Input(_) => None,
        }
    }
}

/// One sample, by the bits of its single or double precision value.
#[derive(Clone, Copy, PartialEq, Eq, Structural, Debug)]
pub enum SampleBits {
    F32(u32),
    F64(u64),
}

/// The bits of the quiet NaN written to output buffers before a process call,
/// to tell samples the plugin left unwritten.
pub const CHECK_NAN_F32_BITS: u32 = 0x7FC0_1234;
/// See [`CHECK_NAN_F32_BITS`].
pub const CHECK_NAN_F64_BITS: u64 = 0x7FF8_1234_5678_1234;

pub open spec fn f32_exponent(b: u32) -> u32 {
    (b >> 23u32) & 0xffu32
}

pub open spec fn f32_mantissa(b: u32) -> u32 {
    b & 0x7f_ffffu32
}

pub open spec fn f64_exponent(b: u64) -> u64 {
    (b >> 52u64) & 0x7ffu64
}

pub open spec fn f64_mantissa(b: u64) -> u64 {
    b & 0xf_ffff_ffff_ffffu64
}

/// Neither infinite nor NaN.
pub open spec fn is_finite(x: SampleBits) -> bool {
    match x {
        SampleBits::F32(b) => f32_exponent(b) != 0xffu32,
        SampleBits::F64(b) => f64_exponent(b) != 0x7ffu64,
    }
}

/// NaN: all exponent bits set and a nonzero mantissa.
pub open spec fn is_nan(x: SampleBits) -> bool {
    match x {
        SampleBits::F32(b) => f32_exponent(b) == 0xffu32 && f32_mantissa(b) != 0,
        SampleBits::F64(b) => f64_exponent(b) == 0x7ffu64 && f64_mantissa(b) != 0,
    }
}

/// Subnormal: no exponent bits and a nonzero mantissa.
pub open spec fn is_subnormal(x: SampleBits) -> bool {
    match x {
        SampleBits::F32(b) => f32_exponent(b) == 0 && f32_mantissa(b) != 0,
        SampleBits::F64(b) => f64_exponent(b) == 0 && f64_mantissa(b) != 0,
    }
}

/// Positive or negative zero.
pub open spec fn is_zero(x: SampleBits) -> bool {
    match x {
        SampleBits::F32(b) => b & 0x7fff_ffffu32 == 0,
        SampleBits::F64(b) => b & 0x7fff_ffff_ffff_ffffu64 == 0,
    }
}

/// The sentinel written before processing, left as it was.
pub open spec fn is_unwritten(x: SampleBits) -> bool {
    match x {
        SampleBits::F32(b) => b == CHECK_NAN_F32_BITS,
        SampleBits::F64(b) => b == CHECK_NAN_F64_BITS,
    }
}

/// Floating point equality: the same precision, neither a NaN, and the same
/// value, where both zeros are equal.
pub open spec fn samples_equal(x: SampleBits, y: SampleBits) -> bool {
    match (x, y) {
        (SampleBits::F32(a), SampleBits::F32(b)) => !is_nan(x) && !is_nan(y) && (a == b || (is_zero(x)
            && is_zero(y))),
        (SampleBits::F64(a), SampleBits::F64(b)) => !is_nan(x) && !is_nan(y) && (a == b || (is_zero(x)
            && is_zero(y))),
        _ => false,
    }
}

/// A sample that an output may not hold: infinite or NaN, or subnormal when
/// denormals are checked.
pub open spec fn is_invalid_output(x: SampleBits, check_denormals: bool) -> bool {
    !is_finite(x) || (is_subnormal(x) && check_denormals)
}

/// How the classes of samples relate, as IEEE 754 defines them: a NaN is not finite, a zero is
/// finite and neither subnormal nor NaN, a subnormal is finite and not zero, the sentinel left
/// in unwritten outputs is a NaN, and every sample but a NaN equals itself.
pub proof fn lemma_sample_classes(x: SampleBits)
    ensures
        is_nan(x) ==> !is_finite(x),
        is_zero(x) ==> is_finite(x) && !is_subnormal(x) && !is_nan(x),
        is_subnormal(x) ==> is_finite(x) && !is_zero(x),
        is_unwritten(x) ==> is_nan(x),
        !is_nan(x) ==> samples_equal(x, x),
        is_nan(x) ==> !samples_equal(x, x),
{
    match x {
        SampleBits::F32(b) => {
            assert({
                &&& b & 0x7fff_ffffu32 == 0 ==> (b >> 23u32) & 0xffu32 == 0 && b & 0x7f_ffffu32 == 0
                &&& (b >> 23u32) & 0xffu32 == 0 && b & 0x7f_ffffu32 != 0 ==> b & 0x7fff_ffffu32 != 0
                &&& b == 0x7FC0_1234u32 ==> (b >> 23u32) & 0xffu32 == 0xffu32 && b & 0x7f_ffffu32 != 0
            }) by (bit_vector);
        },
        SampleBits::F64(b) => {
            assert({
                &&& b & 0x7fff_ffff_ffff_ffffu64 == 0 ==> (b >> 52u64) & 0x7ffu64 == 0 && b
                    & 0xf_ffff_ffff_ffffu64 == 0
                &&& (b >> 52u64) & 0x7ffu64 == 0 && b & 0xf_ffff_ffff_ffffu64 != 0 ==> b
                    & 0x7fff_ffff_ffff_ffffu64 != 0
                &&& b == 0x7FF8_1234_5678_1234u64 ==> (b >> 52u64) & 0x7ffu64 == 0x7ffu64 && b
                    & 0xf_ffff_ffff_ffffu64 != 0
            }) by (bit_vector);
        },
    }
}

pub fn sample_is_finite(x: SampleBits) -> (r: bool)
    ensures
        r == is_finite(x),
{
    match x {
        SampleBits::F32(b) => (b >> 23u32) & 0xff != 0xff,
        SampleBits::F64(b) => (b >> 52u64) & 0x7ff != 0x7ff,
    }
}

pub fn sample_is_nan(x: SampleBits) -> (r: bool)
    ensures
        r == is_nan(x),
{
    match x {
        SampleBits::F32(b) => (b >> 23u32) & 0xff == 0xff && b & 0x7f_ffff != 0,
        SampleBits::F64(b) => (b >> 52u64) & 0x7ff == 0x7ff && b & 0xf_ffff_ffff_ffff != 0,
    }
}

pub fn sample_is_subnormal(x: SampleBits) -> (r: bool)
    ensures
        r == is_subnormal(x),
{
    match x {
        SampleBits::F32(b) => (b >> 23u32) & 0xff == 0 && b & 0x7f_ffff != 0,
        SampleBits::F64(b) => (b >> 52u64) & 0x7ff == 0 && b & 0xf_ffff_ffff_ffff != 0,
    }
}

pub fn sample_is_zero(x: SampleBits) -> (r: bool)
    ensures
        r == is_zero(x),
{
    match x {
        SampleBits::F32(b) => b & 0x7fff_ffff == 0,
        SampleBits::F64(b) => b & 0x7fff_ffff_ffff_ffff == 0,
    }
}

/// Floating point equality of two samples.
pub fn sample_eq(x: SampleBits, y: SampleBits) -> (r: bool)
    ensures
        r == samples_equal(x, y),
{
    let both_numbers = !sample_is_nan(x) && !sample_is_nan(y);
    match (x, y) {
        (SampleBits::F32(a), SampleBits::F32(b)) => both_numbers && (a == b || (sample_is_zero(x)
            && sample_is_zero(y))),
        (SampleBits::F64(a), SampleBits::F64(b)) => both_numbers && (a == b || (sample_is_zero(x)
            && sample_is_zero(y))),
        _ => false,
    }
}

/// What a scan over samples looks for.
#[derive(Clone, Copy, PartialEq, Eq, Structural, Debug)]
pub enum SampleScan {
    /// A sample that is not equal to the one before processing.
    Changed,
    /// A sample that an output may not hold.
    Invalid { check_denormals: bool },
    /// A sample whose bits differ from those before processing.
    BitsChanged,
}

pub open spec fn sample_flagged(scan: SampleScan, after: SampleBits, before: SampleBits) -> bool {
    match scan {
        SampleScan::Changed => !samples_equal(after, before),
        SampleScan::Invalid { check_denormals } => is_invalid_output(after, check_denormals),
        SampleScan::BitsChanged => after != before,
    }
}

fn sample_flagged_exec(scan: SampleScan, after: SampleBits, before: SampleBits) -> (r: bool)
    ensures
        r == sample_flagged(scan, after, before),
{
    match scan {
        SampleScan::Changed => !sample_eq(after, before),
        SampleScan::Invalid { check_denormals } => !sample_is_finite(after) || (sample_is_subnormal(after)
            && check_denormals),
        SampleScan::BitsChanged => after != before,
    }
}

/// The first sample index in `s..hi` of one channel that the scan flags.
pub open spec fn first_flagged_sample(
    after: Seq<SampleBits>,
    before: Seq<SampleBits>,
    scan: SampleScan,
    s: int,
    hi: int,
) -> Option<int>
    decreases hi - s,
{
    if s >= hi {
        None
    } else if sample_flagged(scan, after[s], before[s]) {
        Some(s)
    } else {
        first_flagged_sample(after, before, scan, s + 1, hi)
    }
}

/// The first (channel, sample) from channel `c` on, with the sample in `lo..hi`,
/// that the scan flags; channels in order, samples in order within each.
pub open spec fn first_flagged(
    after: Seq<Vec<SampleBits>>,
    before: Seq<Vec<SampleBits>>,
    scan: SampleScan,
    lo: int,
    hi: int,
    c: int,
) -> Option<(int, int)>
    decreases after.len() - c,
{
    if c < 0 || c >= after.len() {
        None
    } else {
        match first_flagged_sample(after[c]@, before[c]@, scan, lo, hi) {
            Some(s) => Some((c, s)),
            None => first_flagged(after, before, scan, lo, hi, c + 1),
        }
    }
}

/// Every channel of both holds `samples` samples, and both have as many channels.
pub open spec fn same_shape(after: Seq<Vec<SampleBits>>, before: Seq<Vec<SampleBits>>, samples: nat) -> bool {
    &&& after.len() == before.len()
    &&& forall|c: int| 0 <= c < after.len() ==> #[trigger] after[c]@.len() == samples
    &&& forall|c: int| 0 <= c < before.len() ==> #[trigger] before[c]@.len() == samples
}

fn find_flagged(
    after: &Vec<Vec<SampleBits>>,
    before: &Vec<Vec<SampleBits>>,
    scan: SampleScan,
    lo: usize,
    hi: usize,
    samples: usize,
) -> (r: Option<(usize, usize)>)
    requires
        same_shape(after@, before@, samples as nat),
        lo <= hi <= samples,
    ensures
        match r {
            Some((c, s)) => first_flagged(after@, before@, scan, lo as int, hi as int, 0) == Some(
                (c as int, s as int),
            ) && c < after@.len() && lo <= s < hi,
            None => first_flagged(after@, before@, scan, lo as int, hi as int, 0) is None,
        },
{
    let mut c: usize = 0;
    while c < after.len()
        invariant
            same_shape(after@, before@, samples as nat),
            lo <= hi <= samples,
            c <= after@.len(),
            first_flagged(after@, before@, scan, lo as int, hi as int, 0) == first_flagged(
                after@,
                before@,
                scan,
                lo as int,
                hi as int,
                c as int,
            ),
        decreases after.len() - c,
    {
        let a = &after[c];
        let b = &before[c];
        assert(a@.len() == samples && b@.len() == samples);
        let mut s: usize = lo;
        while s < hi
            invariant
                a@.len() == samples,
                b@.len() == samples,
                lo <= s <= hi <= samples,
                c < after@.len(),
                a@ == after@[c as int]@,
                b@ == before@[c as int]@,
                first_flagged(after@, before@, scan, lo as int, hi as int, 0) == first_flagged(
                    after@,
                    before@,
                    scan,
                    lo as int,
                    hi as int,
                    c as int,
                ),
                first_flagged_sample(a@, b@, scan, lo as int, hi as int) == first_flagged_sample(
                    a@,
                    b@,
                    scan,
                    s as int,
                    hi as int,
                ),
            decreases hi - s,
        {
            if sample_flagged_exec(scan, a[s], b[s]) {
                return Some((c, s));
            }
            s = s + 1;
        }
        c = c + 1;
    }
    None
}

/// An audio buffer as it stood after (or before) a process call.
pub struct BufferSnapshot {
    pub port: AudioBufferPort,
    /// The constant mask the plugin set on the output.
    pub output_constant_mask: ConstantMask,
    /// The samples of each channel.
    pub channels: Vec<Vec<SampleBits>>,
    /// Whether each channel's signal stays within the quiet threshold.
    pub channel_quiet: Vec<bool>,
}

/// What is wrong after a process call.
#[derive(Clone, Copy, PartialEq, Eq, Structural, Debug)]
pub enum ConsistencyError {
    /// An input buffer was written to during out-of-place processing.
    InputOverwritten { index: usize, channel: usize, sample: usize },
    /// A channel flagged constant is not.
    OutputNotConstant { port: usize, channel: usize },
    /// A subnormal sample in an output.
    SubnormalOutput { port: usize, channel: usize, sample: usize, value: SampleBits },
    /// An output sample that was never written.
    UnwrittenOutput { port: usize, channel: usize, sample: usize },
    /// An infinite or NaN output sample.
    NonFiniteOutput { port: usize, channel: usize, sample: usize, value: SampleBits },
    /// A sample past the block that the plugin changed.
    OverwrittenBeyondBlock { channel: usize, sample: usize, block_size: u32 },
    /// Something wrong with the output events.
    Event(OutputEventError),
}

/// The first channel from `c` on that is flagged constant but is not quiet.
pub open spec fn first_not_constant(mask: ConstantMask, quiet: Seq<bool>, c: int) -> Option<int>
    decreases quiet.len() - c,
{
    if c < 0 || c >= quiet.len() {
        None
    } else if mask.spec_is_channel_constant(c as u32) && !quiet[c] {
        Some(c)
    } else {
        first_not_constant(mask, quiet, c + 1)
    }
}

/// What the check finds in one output buffer.
pub open spec fn output_buffer_error(
    port: usize,
    after: BufferSnapshot,
    before: BufferSnapshot,
    block_size: u32,
    samples: u32,
    check_denormals: bool,
) -> Option<ConsistencyError> {
    match first_not_constant(after.output_constant_mask, after.channel_quiet@, 0) {
        Some(c) => Some(ConsistencyError::OutputNotConstant { port, channel: c as usize }),
        None => match first_flagged(
            after.channels@,
            before.channels@,
            SampleScan::Invalid { check_denormals },
            0,
            block_size as int,
            0,
        ) {
            Some((c, s)) => {
                let x = after.channels@[c]@[s];
                if is_subnormal(x) {
                    Some(
                        ConsistencyError::SubnormalOutput {
                            port,
                            channel: c as usize,
                            sample: s as usize,
                            value: x,
                        },
                    )
                } else if is_unwritten(x) {
                    Some(
                        ConsistencyError::UnwrittenOutput {
                            port,
                            channel: c as usize,
                            sample: s as usize,
                        },
                    )
                } else {
                    Some(
                        ConsistencyError::NonFiniteOutput {
                            port,
                            channel: c as usize,
                            sample: s as usize,
                            value: x,
                        },
                    )
                }
            },
            None => match first_flagged(
                after.channels@,
                before.channels@,
                SampleScan::BitsChanged,
                block_size as int,
                samples as int,
                0,
            ) {
                Some((c, s)) => Some(
                    ConsistencyError::OverwrittenBeyondBlock {
                        channel: c as usize,
                        sample: s as usize,
                        block_size,
                    },
                ),
                None => None,
            },
        },
    }
}

/// What the check finds in one buffer.
pub open spec fn buffer_error(
    after: BufferSnapshot,
    before: BufferSnapshot,
    block_size: u32,
    samples: u32,
    check_denormals: bool,
    check_outputs: Seq<bool>,
) -> Option<ConsistencyError> {
    match after.port {
        AudioBufferPort::Input(index) => match first_flagged(
            after.channels@,
            before.channels@,
            SampleScan::Changed,
            0,
            samples as int,
            0,
        ) {
            Some((c, s)) => Some(
                ConsistencyError::InputOverwritten { index, channel: c as usize, sample: s as usize },
            ),
            None => None,
        },
        AudioBufferPort::Output(port) | AudioBufferPort::Inplace(_, port) => {
            if port < check_outputs.len() && check_outputs[port as int] {
                output_buffer_error(port, after, before, block_size, samples, check_denormals)
            } else {
                None
            }
        },
    }
}

/// The first problem among the buffers from position `i` on.
pub open spec fn buffers_error_from(
    after: Seq<BufferSnapshot>,
    before: Seq<BufferSnapshot>,
    block_size: u32,
    samples: u32,
    check_denormals: bool,
    check_outputs: Seq<bool>,
    i: int,
) -> Option<ConsistencyError>
    decreases after.len() - i,
{
    if i < 0 || i >= after.len() {
        None
    } else {
        match buffer_error(after[i], before[i], block_size, samples, check_denormals, check_outputs) {
            Some(e) => Some(e),
            None => buffers_error_from(after, before, block_size, samples, check_denormals, check_outputs, i + 1),
        }
    }
}

/// What a process call left behind is well formed: each buffer paired with its
/// state before the call, in the same port and shape, `samples` long.
pub open spec fn snapshots_match(after: Seq<BufferSnapshot>, before: Seq<BufferSnapshot>, samples: u32) -> bool {
    &&& after.len() == before.len()
    &&& forall|i: int|
        0 <= i < after.len() ==> {
            &&& same_shape(#[trigger] after[i].channels@, before[i].channels@, samples as nat)
            &&& after[i].channel_quiet@.len() == after[i].channels@.len()
            &&& after[i].channels@.len() <= u32::MAX
        }
}

/// The whole check after a process call.
pub open spec fn spec_process_consistency(
    after: Seq<BufferSnapshot>,
    before: Seq<BufferSnapshot>,
    output_events: Seq<OutputEventHeader>,
    block_size: u32,
    samples: u32,
    check_denormals: bool,
    check_outputs: Seq<bool>,
) -> Result<(), ConsistencyError> {
    match buffers_error_from(after, before, block_size, samples, check_denormals, check_outputs, 0) {
        Some(e) => Err(e),
        None => match output_events_error_from(output_events, 0, 0, block_size) {
            Some(e) => Err(ConsistencyError::Event(e)),
            None => Ok(()),
        },
    }
}

fn find_not_constant(mask: ConstantMask, quiet: &Vec<bool>) -> (r: Option<usize>)
    requires
        quiet@.len() <= u32::MAX,
    ensures
        match first_not_constant(mask, quiet@, 0) {
            None => r is None,
            Some(c) => r == Some(c as usize),
        },
{
    let mut c: usize = 0;
    while c < quiet.len()
        invariant
            quiet@.len() <= u32::MAX,
            c <= quiet@.len(),
            first_not_constant(mask, quiet@, 0) == first_not_constant(mask, quiet@, c as int),
        decreases quiet.len() - c,
    {
        if mask.is_channel_constant(c as u32) && !quiet[c] {
            return Some(c);
        }
        c = c + 1;
    }
    None
}

fn check_output_buffer(
    port: usize,
    after: &BufferSnapshot,
    before: &BufferSnapshot,
    block_size: u32,
    samples: u32,
    check_denormals: bool,
) -> (r: Option<ConsistencyError>)
    requires
        same_shape(after.channels@, before.channels@, samples as nat),
        after.channel_quiet@.len() == after.channels@.len(),
        after.channels@.len() <= u32::MAX,
        block_size <= samples,
    ensures
        r == output_buffer_error(port, *after, *before, block_size, samples, check_denormals),
{
    match find_not_constant(after.output_constant_mask, &after.channel_quiet) {
        Some(c) => {
            return Some(ConsistencyError::OutputNotConstant { port, channel: c });
        },
        None => {},
    }
    match find_flagged(
        &after.channels,
        &before.channels,
        SampleScan::Invalid { check_denormals },
        0,
        block_size as usize,
        samples as usize,
    ) {
        Some((c, s)) => {
            let x = after.channels[c][s];
            if sample_is_subnormal(x) {
                return Some(ConsistencyError::SubnormalOutput { port, channel: c, sample: s, value: x });
            }
            let unwritten = match x {
                SampleBits::F32(b) => b == CHECK_NAN_F32_BITS,
                SampleBits::F64(b) => b == CHECK_NAN_F64_BITS,
            };
            if unwritten {
                return Some(ConsistencyError::UnwrittenOutput { port, channel: c, sample: s });
            }
            return Some(ConsistencyError::NonFiniteOutput { port, channel: c, sample: s, value: x });
        },
        None => {},
    }
    match find_flagged(
        &after.channels,
        &before.channels,
        SampleScan::BitsChanged,
        block_size as usize,
        samples as usize,
        samples as usize,
    ) {
        Some((c, s)) => Some(ConsistencyError::OverwrittenBeyondBlock { channel: c, sample: s, block_size }),
        None => None,
    }
}

/// The check after a process call: input buffers were not written to, outputs
/// that are checked hold no infinite, NaN, unwritten or (when checked)
/// subnormal samples in the block, keep their constant flags honest and were
/// not written past the block, and the output events are in order, inside the
/// block and not transport events. The first problem found is returned.
pub fn check_process_call_consistency(
    resulting_buffers: &Vec<BufferSnapshot>,
    original_buffers: &Vec<BufferSnapshot>,
    output_events: &Vec<OutputEventHeader>,
    block_size: u32,
    samples: u32,
    check_denormals: bool,
    check_outputs: &Vec<bool>,
) -> (r: Result<(), ConsistencyError>)
    requires
        snapshots_match(resulting_buffers@, original_buffers@, samples),
        block_size <= samples,
    ensures
        r == spec_process_consistency(
            resulting_buffers@,
            original_buffers@,
            output_events@,
            block_size,
            samples,
            check_denormals,
            check_outputs@,
        ),
{
    let mut i: usize = 0;
    while i < resulting_buffers.len()
        invariant
            snapshots_match(resulting_buffers@, original_buffers@, samples),
            block_size <= samples,
            i <= resulting_buffers@.len(),
            buffers_error_from(
                resulting_buffers@,
                original_buffers@,
                block_size,
                samples,
                check_denormals,
                check_outputs@,
                0,
            ) == buffers_error_from(
                resulting_buffers@,
                original_buffers@,
                block_size,
                samples,
                check_denormals,
                check_outputs@,
                i as int,
            ),
        decreases resulting_buffers.len() - i,
    {
        let after = &resulting_buffers[i];
        let before = &original_buffers[i];
        assert(same_shape(resulting_buffers@[i as int].channels@, original_buffers@[i as int].channels@, samples as nat));
        let found: Option<ConsistencyError> = match after.port {
            AudioBufferPort::Input(index) => {
                match find_flagged(&after.channels, &before.channels, SampleScan::Changed, 0, samples as usize, samples as usize) {
                    Some((c, s)) => Some(ConsistencyError::InputOverwritten { index, channel: c, sample: s }),
                    None => None,
                }
            },
            AudioBufferPort::Output(port) | AudioBufferPort::Inplace(_, port) => {
                if port < check_outputs.len() && check_outputs[port] {
                    check_output_buffer(port, after, before, block_size, samples, check_denormals)
                } else {
                    None
                }
            },
        };
        match found {
            Some(e) => {
                return Err(e);
            },
            None => {},
        }
        i = i + 1;
    }
    match check_output_events(output_events, block_size) {
        Ok(_) => Ok(()),
        Err(e) => Err(ConsistencyError::Event(e)),
    }
}

/// The ports of an in-place pair, keyed by the stable IDs of its input and output.
#[derive(Clone, Copy, PartialEq, Eq, Structural, Debug)]
pub struct PairEntry {
    pub input_id: u32,
    pub output_id: u32,
    pub input: Option<usize>,
    pub output: Option<usize>,
}

/// What is wrong with the in-place pairs of an audio port configuration.
#[derive(Clone, Copy, PartialEq, Eq, Structural, Debug)]
pub enum InPlaceError {
    /// An output names an in-place input that does not exist.
    MissingInput { output: usize, input_id: u32 },
    /// An input names an in-place output that does not exist.
    MissingOutput { input: usize, output_id: u32 },
    /// An input and output paired in place differ in flags or layout.
    LayoutMismatch { input: usize, output: usize },
}

/// The position of the entry with these IDs.
pub open spec fn entry_index(entries: Seq<PairEntry>, input_id: u32, output_id: u32) -> Option<int> {
    if exists|k: int|
        0 <= k < entries.len() && entries[k].input_id == input_id && entries[k].output_id == output_id {
        Some(
            choose|k: int|
                0 <= k < entries.len() && entries[k].input_id == input_id && entries[k].output_id == output_id,
        )
    } else {
        None
    }
}

/// No two entries share their IDs.
pub open spec fn keys_unique(entries: Seq<PairEntry>) -> bool {
    forall|a: int, b: int|
        0 <= a < entries.len() && 0 <= b < entries.len() && a != b ==> (entries[a].input_id
            != entries[b].input_id || entries[a].output_id != entries[b].output_id)
}

/// Records input `index` under its pair's IDs; a later port with the same IDs replaces it.
pub open spec fn with_input(entries: Seq<PairEntry>, input_id: u32, output_id: u32, index: usize) -> Seq<
    PairEntry,
> {
    match entry_index(entries, input_id, output_id) {
        Some(k) => entries.update(k, PairEntry { input: Some(index), ..entries[k] }),
        None => entries.push(PairEntry { input_id, output_id, input: Some(index), output: None }),
    }
}

/// Records output `index` under its pair's IDs; a later port with the same IDs replaces it.
pub open spec fn with_output(entries: Seq<PairEntry>, input_id: u32, output_id: u32, index: usize) -> Seq<
    PairEntry,
> {
    match entry_index(entries, input_id, output_id) {
        Some(k) => entries.update(k, PairEntry { output: Some(index), ..entries[k] }),
        None => entries.push(PairEntry { input_id, output_id, input: None, output: Some(index) }),
    }
}

/// The pair entries of the first `n` inputs, in the order their IDs first appear.
pub open spec fn input_entries(inputs: Seq<AudioPort>, n: int) -> Seq<PairEntry>
    decreases n,
{
    if n <= 0 {
        Seq::empty()
    } else {
        let e = input_entries(inputs, n - 1);
        match inputs[n - 1].in_place_pair {
            Some(p) => with_input(e, inputs[n - 1].id, p, (n - 1) as usize),
            None => e,
        }
    }
}

/// The pair entries after the first `n` outputs are added to those of the inputs.
pub open spec fn pair_entries(inputs: Seq<AudioPort>, outputs: Seq<AudioPort>, n: int) -> Seq<PairEntry>
    decreases n,
{
    if n <= 0 {
        input_entries(inputs, inputs.len() as int)
    } else {
        let e = pair_entries(inputs, outputs, n - 1);
        match outputs[n - 1].in_place_pair {
            Some(p) => with_output(e, p, outputs[n - 1].id, (n - 1) as usize),
            None => e,
        }
    }
}

/// The buffers of the first `n` inputs that have no in-place pair.
pub open spec fn unpaired_inputs(inputs: Seq<AudioPort>, n: int) -> Seq<AudioBufferPort>
    decreases n,
{
    if n <= 0 {
        Seq::empty()
    } else {
        let rest = unpaired_inputs(inputs, n - 1);
        if inputs[n - 1].in_place_pair is None {
            rest.push(AudioBufferPort::Input((n - 1) as usize))
        } else {
            rest
        }
    }
}

/// The buffers of the first `n` outputs that have no in-place pair.
pub open spec fn unpaired_outputs(outputs: Seq<AudioPort>, n: int) -> Seq<AudioBufferPort>
    decreases n,
{
    if n <= 0 {
        Seq::empty()
    } else {
        let rest = unpaired_outputs(outputs, n - 1);
        if outputs[n - 1].in_place_pair is None {
            rest.push(AudioBufferPort::Output((n - 1) as usize))
        } else {
            rest
        }
    }
}

pub open spec fn same_port_type(a: Option<Vec<u8>>, b: Option<Vec<u8>>) -> bool {
    match (a, b) {
        (None, None) => true,
        (Some(x), Some(y)) => x@ == y@,
        _ => false,
    }
}

/// Two ports share their layout: channels, type and sample size flags.
pub open spec fn same_layout(port: AudioPort, other: AudioPort) -> bool {
    &&& port.channel_count == other.channel_count
    &&& same_port_type(port.port_type, other.port_type)
    &&& port.supports_double_sample_size == other.supports_double_sample_size
    &&& port.requires_common_sample_size == other.requires_common_sample_size
    &&& port.prefers_double_sample_size == other.prefers_double_sample_size
}

/// The buffers for the entries from position `k` on, after `acc`, or the first problem.
pub open spec fn resolve_entries(
    inputs: Seq<AudioPort>,
    outputs: Seq<AudioPort>,
    entries: Seq<PairEntry>,
    k: int,
    acc: Seq<AudioBufferPort>,
) -> Result<Seq<AudioBufferPort>, InPlaceError>
    decreases entries.len() - k,
{
    if k < 0 || k >= entries.len() {
        Ok(acc)
    } else {
        let e = entries[k];
        match (e.input, e.output) {
            (None, Some(o)) => Err(InPlaceError::MissingInput { output: o, input_id: e.input_id }),
            (Some(i), None) => Err(InPlaceError::MissingOutput { input: i, output_id: e.output_id }),
            (Some(i), Some(o)) => if same_layout(inputs[i as int], outputs[o as int]) {
                resolve_entries(inputs, outputs, entries, k + 1, acc.push(AudioBufferPort::Inplace(i, o)))
            } else {
                Err(InPlaceError::LayoutMismatch { input: i, output: o })
            },
            (None, None) => resolve_entries(inputs, outputs, entries, k + 1, acc),
        }
    }
}

/// The buffers an in-place configuration needs: the inputs and then the outputs
/// without an in-place pair, then one buffer for each pair, in the order its
/// IDs first appear among the inputs and then the outputs.
pub open spec fn spec_resolve_in_place_pairs(inputs: Seq<AudioPort>, outputs: Seq<AudioPort>) -> Result<
    Seq<AudioBufferPort>,
    InPlaceError,
> {
    resolve_entries(
        inputs,
        outputs,
        pair_entries(inputs, outputs, outputs.len() as int),
        0,
        unpaired_inputs(inputs, inputs.len() as int) + unpaired_outputs(outputs, outputs.len() as int),
    )
}

/// The buffers of out-of-place processing: one per input, then one per output, in order.
pub open spec fn out_of_place_ports(n_inputs: nat, n_outputs: nat) -> Seq<AudioBufferPort> {
    Seq::new(n_inputs, |i: int| AudioBufferPort::Input(i as usize)) + Seq::new(
        n_outputs,
        |i: int| AudioBufferPort::Output(i as usize),
    )
}

proof fn lemma_unpaired_all(inputs: Seq<AudioPort>, outputs: Seq<AudioPort>, n: int, m: int)
    requires
        0 <= n <= inputs.len(),
        0 <= m <= outputs.len(),
        forall|i: int| 0 <= i < inputs.len() ==> (#[trigger] inputs[i]).in_place_pair is None,
        forall|i: int| 0 <= i < outputs.len() ==> (#[trigger] outputs[i]).in_place_pair is None,
    ensures
        unpaired_inputs(inputs, n) =~= Seq::new(n as nat, |i: int| AudioBufferPort::Input(i as usize)),
        unpaired_outputs(outputs, m) =~= Seq::new(m as nat, |i: int| AudioBufferPort::Output(i as usize)),
        input_entries(inputs, n) =~= Seq::<PairEntry>::empty(),
        pair_entries(inputs, outputs, m) =~= Seq::<PairEntry>::empty(),
    decreases n + m,
{
    if n > 0 {
        lemma_unpaired_all(inputs, outputs, n - 1, m);
    }
    if m > 0 {
        lemma_unpaired_all(inputs, outputs, n, m - 1);
    }
    if m == 0 {
        lemma_unpaired_all_inputs(inputs, inputs.len() as int);
    }
}

proof fn lemma_unpaired_all_inputs(inputs: Seq<AudioPort>, n: int)
    requires
        0 <= n <= inputs.len(),
        forall|i: int| 0 <= i < inputs.len() ==> (#[trigger] inputs[i]).in_place_pair is None,
    ensures
        input_entries(inputs, n) =~= Seq::<PairEntry>::empty(),
    decreases n,
{
    if n > 0 {
        lemma_unpaired_all_inputs(inputs, n - 1);
    }
}

/// Without in-place pairs, in-place processing uses exactly the buffers of out-of-place
/// processing: the inputs, then the outputs.
pub proof fn lemma_no_pairs_out_of_place(inputs: Seq<AudioPort>, outputs: Seq<AudioPort>)
    requires
        forall|i: int| 0 <= i < inputs.len() ==> (#[trigger] inputs[i]).in_place_pair is None,
        forall|i: int| 0 <= i < outputs.len() ==> (#[trigger] outputs[i]).in_place_pair is None,
    ensures
        spec_resolve_in_place_pairs(inputs, outputs) == Ok::<Seq<AudioBufferPort>, InPlaceError>(
            out_of_place_ports(inputs.len(), outputs.len()),
        ),
{
    lemma_unpaired_all(inputs, outputs, inputs.len() as int, outputs.len() as int);
    assert(pair_entries(inputs, outputs, outputs.len() as int) =~= Seq::<PairEntry>::empty());
}

/// Every buffer serves ports that exist.
pub open spec fn ports_in_range(ports: Seq<AudioBufferPort>, n_inputs: nat, n_outputs: nat) -> bool {
    forall|k: int|
        0 <= k < ports.len() ==> {
            &&& (#[trigger] ports[k]).spec_input() matches Some(i) ==> i < n_inputs
            &&& ports[k].spec_output() matches Some(o) ==> o < n_outputs
        }
}

/// Every recorded index names a port.
pub open spec fn entries_in_range(entries: Seq<PairEntry>, n_inputs: nat, n_outputs: nat) -> bool {
    forall|k: int|
        0 <= k < entries.len() ==> {
            &&& (#[trigger] entries[k]).input matches Some(i) ==> i < n_inputs
            &&& entries[k].output matches Some(o) ==> o < n_outputs
        }
}

fn find_entry(entries: &Vec<PairEntry>, input_id: u32, output_id: u32) -> (r: Option<usize>)
    requires
        keys_unique(entries@),
    ensures
        match r {
            Some(k) => entry_index(entries@, input_id, output_id) == Some(k as int) && k < entries@.len(),
            None => entry_index(entries@, input_id, output_id) is None,
        },
{
    let mut k: usize = 0;
    while k < entries.len()
        invariant
            k <= entries@.len(),
            keys_unique(entries@),
            forall|j: int|
                0 <= j < k ==> !(entries@[j].input_id == input_id && entries@[j].output_id == output_id),
        decreases entries.len() - k,
    {
        if entries[k].input_id == input_id && entries[k].output_id == output_id {
            proof {
                let ki = k as int;
                assert(0 <= ki < entries@.len() && entries@[ki].input_id == input_id && entries@[ki].output_id
                    == output_id);
                let c = choose|j: int|
                    0 <= j < entries@.len() && entries@[j].input_id == input_id && entries@[j].output_id
                        == output_id;
                assert(exists|j: int|
                    0 <= j < entries@.len() && entries@[j].input_id == input_id && entries@[j].output_id
                        == output_id);
                if c != ki {
                    assert(entries@[c].input_id != entries@[ki].input_id || entries@[c].output_id
                        != entries@[ki].output_id);
                }
            }
            return Some(k);
        }
        k = k + 1;
    }
    None
}

fn same_layout_exec(port: &AudioPort, other: &AudioPort) -> (r: bool)
    ensures
        r == same_layout(*port, *other),
{
    let same_type = match (&port.port_type, &other.port_type) {
        (None, None) => true,
        (Some(x), Some(y)) => bytes_eq(x, y),
        _ => false,
    };
    port.channel_count == other.channel_count && same_type && port.supports_double_sample_size
        == other.supports_double_sample_size && port.requires_common_sample_size
        == other.requires_common_sample_size && port.prefers_double_sample_size
        == other.prefers_double_sample_size
}

/// Resolves the in-place pairs of an audio port configuration into the buffers
/// that in-place processing needs, or the first inconsistency: a port whose
/// in-place partner does not exist, or partners whose layouts differ.
pub fn resolve_in_place_pairs(inputs: &Vec<AudioPort>, outputs: &Vec<AudioPort>) -> (r: Result<
    Vec<AudioBufferPort>,
    InPlaceError,
>)
    ensures
        match r {
            Ok(ports) => spec_resolve_in_place_pairs(inputs@, outputs@) == Ok::<
                Seq<AudioBufferPort>,
                InPlaceError,
            >(ports@),
            Err(e) => spec_resolve_in_place_pairs(inputs@, outputs@) == Err::<
                Seq<AudioBufferPort>,
                InPlaceError,
            >(e),
        },
        r matches Ok(ports) ==> ports_in_range(ports@, inputs@.len(), outputs@.len()),
{
    let mut entries: Vec<PairEntry> = Vec::new();
    let mut unpaired_in: Vec<AudioBufferPort> = Vec::new();
    let mut i: usize = 0;
    while i < inputs.len()
        invariant
            i <= inputs@.len(),
            entries@ == input_entries(inputs@, i as int),
            unpaired_in@ == unpaired_inputs(inputs@, i as int),
            ports_in_range(unpaired_in@, i as nat, 0),
            keys_unique(entries@),
            entries_in_range(entries@, i as nat, 0),
        decreases inputs.len() - i,
    {
        let ghost before = entries@;
        match inputs[i].in_place_pair {
            Some(p) => {
                let id = inputs[i].id;
                match find_entry(&entries, id, p) {
                    Some(k) => {
                        let old_entry = entries[k];
                        entries.set(k, PairEntry { input: Some(i), ..old_entry });
                    },
                    None => {
                        entries.push(PairEntry { input_id: id, output_id: p, input: Some(i), output: None });
                    },
                }
                proof {
                    assert(entries@ == with_input(before, id, p, i));
                }
            },
            None => {
                unpaired_in.push(AudioBufferPort::Input(i));
            },
        }
        i = i + 1;
        proof {
            assert forall|a: int, b: int|
                0 <= a < entries@.len() && 0 <= b < entries@.len() && a != b implies (entries@[a].input_id
                != entries@[b].input_id || entries@[a].output_id != entries@[b].output_id) by {
                if a < before.len() && b < before.len() {
                    assert(before[a].input_id == entries@[a].input_id && before[a].output_id
                        == entries@[a].output_id);
                    assert(before[b].input_id == entries@[b].input_id && before[b].output_id
                        == entries@[b].output_id);
                }
            }
            assert forall|k: int| 0 <= k < entries@.len() implies {
                &&& (#[trigger] entries@[k]).input matches Some(x) ==> x < i
                &&& entries@[k].output matches Some(o) ==> o < 0
            } by {
                if k < before.len() {
                    assert(entries_in_range(before, (i - 1) as nat, 0));
                    assert(before[k].input matches Some(x) ==> x < i - 1);
                }
            }
        }
    }
    let mut unpaired_out: Vec<AudioBufferPort> = Vec::new();
    let mut j: usize = 0;
    while j < outputs.len()
        invariant
            j <= outputs@.len(),
            entries@ == pair_entries(inputs@, outputs@, j as int),
            unpaired_in@ == unpaired_inputs(inputs@, inputs@.len() as int),
            unpaired_out@ == unpaired_outputs(outputs@, j as int),
            ports_in_range(unpaired_in@, inputs@.len(), 0),
            ports_in_range(unpaired_out@, 0, j as nat),
            keys_unique(entries@),
            entries_in_range(entries@, inputs@.len(), j as nat),
        decreases outputs.len() - j,
    {
        let ghost before = entries@;
        match outputs[j].in_place_pair {
            Some(p) => {
                let id = outputs[j].id;
                match find_entry(&entries, p, id) {
                    Some(k) => {
                        let old_entry = entries[k];
                        entries.set(k, PairEntry { output: Some(j), ..old_entry });
                    },
                    None => {
                        entries.push(PairEntry { input_id: p, output_id: id, input: None, output: Some(j) });
                    },
                }
                proof {
                    assert(entries@ == with_output(before, p, id, j));
                }
            },
            None => {
                unpaired_out.push(AudioBufferPort::Output(j));
            },
        }
        j = j + 1;
        proof {
            assert forall|a: int, b: int|
                0 <= a < entries@.len() && 0 <= b < entries@.len() && a != b implies (entries@[a].input_id
                != entries@[b].input_id || entries@[a].output_id != entries@[b].output_id) by {
                if a < before.len() && b < before.len() {
                    assert(before[a].input_id == entries@[a].input_id && before[a].output_id
                        == entries@[a].output_id);
                    assert(before[b].input_id == entries@[b].input_id && before[b].output_id
                        == entries@[b].output_id);
                }
            }
            assert forall|k: int| 0 <= k < entries@.len() implies {
                &&& (#[trigger] entries@[k]).input matches Some(x) ==> x < inputs@.len()
                &&& entries@[k].output matches Some(o) ==> o < j
            } by {
                if k < before.len() {
                    assert(entries_in_range(before, inputs@.len(), (j - 1) as nat));
                    assert(before[k].output matches Some(o) ==> o < j - 1);
                }
            }
        }
    }
    let mut ports: Vec<AudioBufferPort> = unpaired_in;
    let ghost before_append = ports@;
    let ghost outs = unpaired_out@;
    ports.append(&mut unpaired_out);
    proof {
        assert forall|k: int| 0 <= k < ports@.len() implies {
            &&& (#[trigger] ports@[k]).spec_input() matches Some(i) ==> i < inputs@.len()
            &&& ports@[k].spec_output() matches Some(o) ==> o < outputs@.len()
        } by {
            if k < before_append.len() {
                assert(ports@[k] == before_append[k]);
            } else {
                assert(ports@[k] == outs[k - before_append.len()]);
            }
        }
    }
    let ghost all_entries = entries@;
    let mut k: usize = 0;
    while k < entries.len()
        invariant
            k <= entries@.len(),
            entries@ == all_entries,
            entries_in_range(all_entries, inputs@.len(), outputs@.len()),
            ports_in_range(ports@, inputs@.len(), outputs@.len()),
            spec_resolve_in_place_pairs(inputs@, outputs@) == resolve_entries(
                inputs@,
                outputs@,
                all_entries,
                k as int,
                ports@,
            ),
        decreases entries.len() - k,
    {
        let e = entries[k];
        assert(all_entries[k as int] == e);
        match (e.input, e.output) {
            (None, Some(o)) => {
                return Err(InPlaceError::MissingInput { output: o, input_id: e.input_id });
            },
            (Some(i), None) => {
                return Err(InPlaceError::MissingOutput { input: i, output_id: e.output_id });
            },
            (Some(i), Some(o)) => {
                if !same_layout_exec(&inputs[i], &outputs[o]) {
                    return Err(InPlaceError::LayoutMismatch { input: i, output: o });
                }
                ports.push(AudioBufferPort::Inplace(i, o));
            },
            (None, None) => {},
        }
        k = k + 1;
    }
    Ok(ports)
}

impl AudioBufferPort {
    /// The channel count and sample size of the buffer for this port: the
    /// port's channels, double precision where asked for and every port it
    /// serves supports it.
    pub fn buffer_layout(self, inputs: &Vec<AudioPort>, outputs: &Vec<AudioPort>, is_double: bool) -> (r: (
        u32,
        bool,
    ))
        requires
            self.spec_input() matches Some(i) ==> i < inputs@.len(),
            self.spec_output() matches Some(o) ==> o < outputs@.len(),
        ensures
            r == match self {
                AudioBufferPort::Input(i) => (
                    inputs@[i as int].channel_count,
                    is_double && inputs@[i as int].supports_double_sample_size,
                ),
                AudioBufferPort::Output(o) => (
                    outputs@[o as int].channel_count,
                    is_double && outputs@[o as int].supports_double_sample_size,
                ),
                AudioBufferPort::Inplace(i, o) => (
                    inputs@[i as int].channel_count,
                    is_double && inputs@[i as int].supports_double_sample_size
                        && outputs@[o as int].supports_double_sample_size,
                ),
            },
    {
        match self {
            AudioBufferPort::Input(i) => (
                inputs[i].channel_count,
                is_double && inputs[i].supports_double_sample_size,
            ),
            AudioBufferPort::Output(o) => (
                outputs[o].channel_count,
                is_double && outputs[o].supports_double_sample_size,
            ),
            AudioBufferPort::Inplace(i, o) => (
                inputs[i].channel_count,
                is_double && inputs[i].supports_double_sample_size && outputs[o].supports_double_sample_size,
            ),
        }
    }
}

/// The number of input and output slots a set of buffers fills: one more than
/// the highest port index of each kind, or none.
pub open spec fn slot_count(ports: Seq<AudioBufferPort>, input: bool, n: int) -> nat
    decreases n,
{
    if n <= 0 {
        0
    } else {
        let rest = slot_count(ports, input, n - 1);
        let index = if input {
            ports[n - 1].spec_input()
        } else {
            ports[n - 1].spec_output()
        };
        match index {
            Some(k) => if k + 1 > rest {
                (k + 1) as nat
            } else {
                rest
            },
            None => rest,
        }
    }
}

/// How many input and output port slots the buffers for `ports` take.
pub fn port_slots(ports: &Vec<AudioBufferPort>) -> (r: (usize, usize))
    requires
        forall|k: int|
            0 <= k < ports@.len() ==> {
                &&& (#[trigger] ports@[k]).spec_input() matches Some(i) ==> i < usize::MAX
                &&& ports@[k].spec_output() matches Some(o) ==> o < usize::MAX
            },
    ensures
        r.0 == slot_count(ports@, true, ports@.len() as int),
        r.1 == slot_count(ports@, false, ports@.len() as int),
{
    let mut inputs: usize = 0;
    let mut outputs: usize = 0;
    let mut k: usize = 0;
    while k < ports.len()
        invariant
            k <= ports@.len(),
            inputs == slot_count(ports@, true, k as int),
            outputs == slot_count(ports@, false, k as int),
            forall|j: int|
                0 <= j < ports@.len() ==> {
                    &&& (#[trigger] ports@[j]).spec_input() matches Some(i) ==> i < usize::MAX
                    &&& ports@[j].spec_output() matches Some(o) ==> o < usize::MAX
                },
        decreases ports.len() - k,
    {
        let p = ports[k];
        assert(ports@[k as int] == p);
        match p.input() {
            Some(i) => {
                if i + 1 > inputs {
                    inputs = i + 1;
                }
            },
            None => {},
        }
        match p.output() {
            Some(o) => {
                if o + 1 > outputs {
                    outputs = o + 1;
                }
            },
            None => {},
        }
        k = k + 1;
    }
    (inputs, outputs)
}

/// The header of a buffer description handed to a plugin: where its sample
/// pointers live (by address), and what it says of its channels.
#[derive(Clone, Copy, PartialEq, Eq, Structural, Debug)]
pub struct ClapBufferHeader {
    pub data32: usize,
    pub data64: usize,
    pub channel_count: u32,
    pub latency: u32,
    pub constant_mask: u64,
}

/// A buffer description that the plugin changed while processing.
#[derive(Clone, Copy, PartialEq, Eq, Structural, Debug)]
pub enum BufferTamper {
    InputData(usize),
    InputChannelPointers(usize),
    OutputData(usize),
    OutputChannelPointers(usize),
}

/// The input description kept everything it was handed.
pub open spec fn input_header_intact(expected: ClapBufferHeader, actual: ClapBufferHeader) -> bool {
    expected == actual
}

/// The output description kept its pointers and channel count; the plugin may
/// set its constant mask and latency.
pub open spec fn output_header_intact(expected: ClapBufferHeader, actual: ClapBufferHeader) -> bool {
    &&& expected.data32 == actual.data32
    &&& expected.data64 == actual.data64
    &&& expected.channel_count == actual.channel_count
}

fn same_pointers(expected: &Vec<usize>, actual: &Vec<usize>) -> (r: bool)
    requires
        expected@.len() == actual@.len(),
    ensures
        r == (expected@ == actual@),
{
    let mut i: usize = 0;
    while i < expected.len()
        invariant
            expected@.len() == actual@.len(),
            i <= expected@.len(),
            forall|j: int| 0 <= j < i ==> expected@[j] == actual@[j],
        decreases expected.len() - i,
    {
        if expected[i] != actual[i] {
            return false;
        }
        i = i + 1;
    }
    assert(expected@ =~= actual@);
    true
}

/// Checks an input buffer's description after a process call: it and its
/// channel pointers must be as they were handed to the plugin.
pub fn check_input_untouched(
    index: usize,
    expected: ClapBufferHeader,
    actual: ClapBufferHeader,
    expected_ptrs: &Vec<usize>,
    actual_ptrs: &Vec<usize>,
) -> (r: Result<(), BufferTamper>)
    requires
        expected_ptrs@.len() == actual_ptrs@.len(),
    ensures
        r == (if !input_header_intact(expected, actual) {
            Err(BufferTamper::InputData(index))
        } else if expected_ptrs@ != actual_ptrs@ {
            Err(BufferTamper::InputChannelPointers(index))
        } else {
            Ok(())
        }),
{
    if expected != actual {
        return Err(BufferTamper::InputData(index));
    }
    if !same_pointers(expected_ptrs, actual_ptrs) {
        return Err(BufferTamper::InputChannelPointers(index));
    }
    Ok(())
}

/// Checks an output buffer's description after a process call, and gives the
/// constant mask and latency the plugin reported on it.
pub fn check_output_untouched(
    index: usize,
    expected: ClapBufferHeader,
    actual: ClapBufferHeader,
    expected_ptrs: &Vec<usize>,
    actual_ptrs: &Vec<usize>,
) -> (r: Result<(ConstantMask, u32), BufferTamper>)
    requires
        expected_ptrs@.len() == actual_ptrs@.len(),
    ensures
        r == (if !output_header_intact(expected, actual) {
            Err(BufferTamper::OutputData(index))
        } else if expected_ptrs@ != actual_ptrs@ {
            Err(BufferTamper::OutputChannelPointers(index))
        } else {
            Ok((ConstantMask(actual.constant_mask), actual.latency))
        }),
{
    if expected.data32 != actual.data32 || expected.data64 != actual.data64 || expected.channel_count
        != actual.channel_count {
        return Err(BufferTamper::OutputData(index));
    }
    if !same_pointers(expected_ptrs, actual_ptrs) {
        return Err(BufferTamper::OutputChannelPointers(index));
    }
    Ok((ConstantMask(actual.constant_mask), actual.latency))
}

} // verus!
