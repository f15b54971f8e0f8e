//! Checks on the note ports and audio ports a plugin declares.

use std::collections::HashSet;
use vstd::prelude::*;

verus! {

broadcast use vstd::std_specs::hash::group_hash_axioms;

/// The stable ID that means "no ID".
pub const CLAP_INVALID_ID: u32 = 0xffff_ffff;

/// Note dialect: CLAP note events.
pub const CLAP_NOTE_DIALECT_CLAP: u32 = 1;

/// Note dialect: MIDI 1.0.
pub const CLAP_NOTE_DIALECT_MIDI: u32 = 2;

/// Note dialect: MIDI 1.0 with MPE.
pub const CLAP_NOTE_DIALECT_MIDI_MPE: u32 = 4;

/// Note dialect: MIDI 2.0.
pub const CLAP_NOTE_DIALECT_MIDI2: u32 = 8;

/// Audio port flag: this is the main port.
pub const CLAP_AUDIO_PORT_IS_MAIN: u32 = 1;

/// Audio port flag: the port supports 64-bit samples.
pub const CLAP_AUDIO_PORT_SUPPORTS_64BITS: u32 = 2;

/// Audio port flag: the port prefers 64-bit samples.
pub const CLAP_AUDIO_PORT_PREFERS_64BITS: u32 = 4;

/// Audio port flag: all ports with this flag need the same sample size.
pub const CLAP_AUDIO_PORT_REQUIRES_COMMON_SAMPLE_SIZE: u32 = 8;

/// The number of set bits among the lowest `k` bits of `x`.
pub open spec fn bits_set_below(x: u32, k: nat) -> nat
    decreases k,
{
    if k == 0 {
        0
    } else {
        bits_set_below(x, (k - 1) as nat) + if x & (1u32 << ((k - 1) as u32)) != 0 {
            1nat
        } else {
            0nat
        }
    }
}

/// The number of set bits of `x`.
pub open spec fn count_ones(x: u32) -> nat {
    bits_set_below(x, 32)
}

/// The number of set bits of `x`.
pub fn count_ones_exec(x: u32) -> (r: u32)
    ensures
        r == count_ones(x),
{
    let mut n: u32 = 0;
    let mut k: u32 = 0;
    while k < 32
        invariant
            k <= 32,
            n == bits_set_below(x, k as nat),
            n <= k,
        decreases 32 - k,
    {
        if x & (1u32 << k) != 0 {
            n = n + 1;
        }
        k = k + 1;
    }
    n
}

/// The single-bit dialect values among the lowest `k` bits of `supported`, from the lowest.
pub open spec fn dialects_below(supported: u32, k: nat) -> Seq<u32>
    decreases k,
{
    if k == 0 {
        Seq::empty()
    } else {
        let flag = 1u32 << ((k - 1) as u32);
        dialects_below(supported, (k - 1) as nat) + if supported & flag != 0 {
            seq![flag]
        } else {
            Seq::empty()
        }
    }
}

/// The configuration for a single note port: every supported dialect, one bit each. Only the
/// lowest 31 bits of the supported dialects are read.
pub struct NotePort {
    pub supported_dialects: Vec<u32>,
}

/// A note port's description as the plugin reports it.
#[derive(Clone, Copy, PartialEq, Eq, Structural, Debug)]
pub struct RawNotePortInfo {
    pub id: u32,
    pub supported_dialects: u32,
    pub preferred_dialect: u32,
}

/// Why a note port was refused.
#[derive(Clone, Copy, PartialEq, Eq, Structural, Debug)]
pub enum NotePortError {
    /// The stable ID is `CLAP_INVALID_ID`.
    InvalidId,
    /// The preferred dialect has this many bits set instead of one.
    PreferredNotSingle(u32),
    /// The preferred dialect is not among the supported ones.
    PreferredNotSupported,
}

/// What [`check_note_port_valid`] decides for a port.
pub open spec fn note_port_error(info: RawNotePortInfo) -> Option<NotePortError> {
    if info.id == CLAP_INVALID_ID {
        Some(NotePortError::InvalidId)
    } else if count_ones(info.preferred_dialect) != 1 {
        Some(NotePortError::PreferredNotSingle(count_ones(info.preferred_dialect) as u32))
    } else if info.supported_dialects & info.preferred_dialect == 0 {
        Some(NotePortError::PreferredNotSupported)
    } else {
        None
    }
}

/// A note port with a valid ID and one of the CLAP dialects (CLAP 1, MIDI 2, MIDI MPE 4,
/// MIDI 2.0 8) as its preferred dialect is accepted exactly when it also supports that dialect.
/// An invalid ID (all bits set) is always refused first, and a preferred dialect with no bit or
/// with two bits set is refused with that bit count.
pub proof fn lemma_note_port_rules(info: RawNotePortInfo)
    ensures
        info.id == 0xffff_ffff ==> note_port_error(info) == Some(NotePortError::InvalidId),
        info.id != 0xffff_ffff && (info.preferred_dialect == 1 || info.preferred_dialect == 2
            || info.preferred_dialect == 4 || info.preferred_dialect == 8) ==> (note_port_error(
            info,
        ) is None <==> info.supported_dialects & info.preferred_dialect != 0),
        info.id != 0xffff_ffff && info.preferred_dialect == 0 ==> note_port_error(info) == Some(
            NotePortError::PreferredNotSingle(0),
        ),
        info.id != 0xffff_ffff && info.preferred_dialect == 3 ==> note_port_error(info) == Some(
            NotePortError::PreferredNotSingle(2),
        ),
        info.id != 0xffff_ffff && note_port_error(info) is None ==> info.supported_dialects
            & info.preferred_dialect != 0,
{
    lemma_small_bit_counts();
}

/// Which of the low bits two small numbers have in common.
proof fn lemma_bit_test(x: u32, j: u32)
    by (bit_vector)
    requires
        j < 32,
    ensures
        x == 0 ==> x & (1u32 << j) == 0,
        x == 1 ==> (x & (1u32 << j) != 0 <==> j == 0),
        x == 2 ==> (x & (1u32 << j) != 0 <==> j == 1),
        x == 3 ==> (x & (1u32 << j) != 0 <==> j == 0 || j == 1),
        x == 4 ==> (x & (1u32 << j) != 0 <==> j == 2),
        x == 8 ==> (x & (1u32 << j) != 0 <==> j == 3),
{
}

/// The set bits below `n` of the numbers 0, 1, 2, 3, 4 and 8.
proof fn lemma_small_bits_below(n: nat)
    requires
        n <= 32,
    ensures
        bits_set_below(0, n) == 0,
        bits_set_below(1, n) == if n > 0 { 1nat } else { 0nat },
        bits_set_below(2, n) == if n > 1 { 1nat } else { 0nat },
        bits_set_below(3, n) == if n > 1 { 2nat } else if n > 0 { 1nat } else { 0nat },
        bits_set_below(4, n) == if n > 2 { 1nat } else { 0nat },
        bits_set_below(8, n) == if n > 3 { 1nat } else { 0nat },
    decreases n,
{
    if n > 0 {
        lemma_small_bits_below((n - 1) as nat);
        let j = (n - 1) as u32;
        lemma_bit_test(0, j);
        lemma_bit_test(1, j);
        lemma_bit_test(2, j);
        lemma_bit_test(3, j);
        lemma_bit_test(4, j);
        lemma_bit_test(8, j);
    }
}

/// The numbers of set bits of 0, 1, 2, 3, 4 and 8.
proof fn lemma_small_bit_counts()
    ensures
        count_ones(0) == 0,
        count_ones(1) == 1,
        count_ones(2) == 1,
        count_ones(3) == 2,
        count_ones(4) == 1,
        count_ones(8) == 1,
{
    lemma_small_bits_below(32);
}

/// An audio port is refused for an invalid ID (all bits set), for being marked main (flag 1)
/// anywhere but first, and for preferring 64-bit samples (flag 4) without supporting them
/// (flag 2); any other port passes these checks.
pub proof fn lemma_audio_port_flag_rules(port_index: u32, id: u32, flags: u32)
    ensures
        audio_port_flags_error(port_index, id, flags) is None <==> (id != 0xffff_ffff && (flags & 1
            == 0 || port_index == 0) && (flags & 4 == 0 || flags & 2 != 0)),
        id == 0xffff_ffff ==> audio_port_flags_error(port_index, id, flags) == Some(
            AudioPortError::InvalidId,
        ),
        id != 0xffff_ffff && flags & 1 != 0 && port_index != 0 ==> audio_port_flags_error(
            port_index,
            id,
            flags,
        ) == Some(AudioPortError::MainNotFirst),
{
}

/// Check a note port's description: a valid ID, exactly one preferred dialect, and that one
/// among the supported dialects.
pub fn check_note_port_valid(info: RawNotePortInfo) -> (r: Result<NotePort, NotePortError>)
    ensures
        match r {
            Ok(port) => note_port_error(info) is None && port.supported_dialects@ == dialects_below(
                info.supported_dialects,
                31,
            ),
            Err(e) => note_port_error(info) == Some(e),
        },
{
    if info.id == CLAP_INVALID_ID {
        return Err(NotePortError::InvalidId);
    }
    let preferred = count_ones_exec(info.preferred_dialect);
    if preferred != 1 {
        return Err(NotePortError::PreferredNotSingle(preferred));
    }
    if info.supported_dialects & info.preferred_dialect == 0 {
        return Err(NotePortError::PreferredNotSupported);
    }
    let mut dialects: Vec<u32> = Vec::new();
    let mut bit: u32 = 0;
    while bit < 31
        invariant
            bit <= 31,
            dialects@ == dialects_below(info.supported_dialects, bit as nat),
        decreases 31 - bit,
    {
        let flag = 1u32 << bit;
        if info.supported_dialects & flag != 0 {
            dialects.push(flag);
        }
        bit = bit + 1;
    }
    Ok(NotePort { supported_dialects: dialects })
}

/// Whether a sequence contains a value.
fn contains_value(v: &Vec<u32>, x: u32) -> (r: bool)
    ensures
        r == v@.contains(x),
{
    let mut i: usize = 0;
    while i < v.len()
        invariant
            i <= v@.len(),
            forall|j: int| 0 <= j < i ==> v@[j] != x,
        decreases v.len() - i,
    {
        if v[i] == x {
            return true;
        }
        i = i + 1;
    }
    false
}

impl NotePort {
    /// Whether the port accepts CLAP note events.
    pub fn supports_clap(&self) -> (r: bool)
        ensures
            r == self.supported_dialects@.contains(CLAP_NOTE_DIALECT_CLAP),
    {
        contains_value(&self.supported_dialects, CLAP_NOTE_DIALECT_CLAP)
    }

    /// Whether the port accepts MIDI 1.0, with or without MPE.
    pub fn supports_midi(&self) -> (r: bool)
        ensures
            r == (self.supported_dialects@.contains(CLAP_NOTE_DIALECT_MIDI)
                || self.supported_dialects@.contains(CLAP_NOTE_DIALECT_MIDI_MPE)),
    {
        contains_value(&self.supported_dialects, CLAP_NOTE_DIALECT_MIDI) || contains_value(
            &self.supported_dialects,
            CLAP_NOTE_DIALECT_MIDI_MPE,
        )
    }
}

/// The note port configuration for a plugin.
pub struct NotePortConfig {
    pub inputs: Vec<NotePort>,
    pub outputs: Vec<NotePort>,
}

/// Why a plugin's note port configuration was refused.
#[derive(Clone, Copy, PartialEq, Eq, Structural, Debug)]
pub enum NotePortConfigError {
    /// The plugin returned false when asked for the port at this index.
    QueryFailed { is_input: bool, index: usize },
    /// The port at this index repeats the stable ID of an earlier port in the same direction.
    DuplicateId { is_input: bool, index: usize, id: u32 },
    /// The port at this index is invalid.
    Invalid { is_input: bool, index: usize, error: NotePortError },
}

/// The first error among the ports of one direction, given as answers to the queries (`None`
/// when the plugin returned false).
pub open spec fn note_ports_error(is_input: bool, ports: Seq<Option<RawNotePortInfo>>) -> Option<
    NotePortConfigError,
>
    decreases ports.len(),
{
    if ports.len() == 0 {
        None
    } else {
        let prefix = ports.drop_last();
        let index = (ports.len() - 1) as usize;
        match note_ports_error(is_input, prefix) {
            Some(e) => Some(e),
            None => match ports.last() {
                None => Some(NotePortConfigError::QueryFailed { is_input, index }),
                Some(info) => if exists|k: int|
                    0 <= k < prefix.len() && prefix[k] == Some(
                        RawNotePortInfo { id: info.id, ..(#[trigger] prefix[k])->0 },
                    ) {
                    Some(NotePortConfigError::DuplicateId { is_input, index, id: info.id })
                } else {
                    match note_port_error(info) {
                        Some(error) => Some(NotePortConfigError::Invalid { is_input, index, error }),
                        None => None,
                    }
                },
            },
        }
    }
}

/// Whether `ports` are the checked ports of the answers `infos`, one for one: each has exactly
/// the dialects its description supports.
pub open spec fn collects_note_ports(ports: Seq<NotePort>, infos: Seq<Option<RawNotePortInfo>>) -> bool {
    &&& ports.len() == infos.len()
    &&& forall|i: int|
        0 <= i < ports.len() ==> (#[trigger] ports[i]).supported_dialects@ == dialects_below(
            infos[i]->0.supported_dialects,
            31,
        )
}

/// Check the ports of one direction and collect them.
fn note_ports_of(is_input: bool, ports: &Vec<Option<RawNotePortInfo>>) -> (r: Result<
    Vec<NotePort>,
    NotePortConfigError,
>)
    ensures
        match r {
            Ok(v) => note_ports_error(is_input, ports@) is None && collects_note_ports(v@, ports@),
            Err(e) => note_ports_error(is_input, ports@) == Some(e),
        },
{
    let mut ids: HashSet<u32> = HashSet::new();
    let mut out: Vec<NotePort> = Vec::new();
    let mut i: usize = 0;
    while i < ports.len()
        invariant
            i <= ports@.len(),
            out@.len() == i,
            forall|j: int|
                0 <= j < i ==> (#[trigger] out@[j]).supported_dialects@ == dialects_below(
                    ports@[j]->0.supported_dialects,
                    31,
                ),
            note_ports_error(is_input, ports@.subrange(0, i as int)) is None,
            forall|x: u32|
                ids@.contains(x) <==> exists|k: int|
                    0 <= k < i && ports@[k] is Some && (#[trigger] ports@[k])->0.id == x,
        decreases ports.len() - i,
    {
        let ghost prefix = ports@.subrange(0, i as int);
        let ghost next = ports@.subrange(0, i + 1);
        assert(next.drop_last() =~= prefix);
        let info = match ports[i] {
            None => {
                assert(note_ports_error(is_input, next) == Some(
                    NotePortConfigError::QueryFailed { is_input, index: i },
                ));
                proof {
                    lemma_note_ports_error_prefix(is_input, ports@, i + 1);
                }
                return Err(NotePortConfigError::QueryFailed { is_input, index: i });
            },
            Some(info) => info,
        };
        let fresh = ids.insert(info.id);
        proof {
            assert(forall|k: int| 0 <= k < i ==> prefix[k] == ports@[k]);
            assert((exists|k: int|
                0 <= k < prefix.len() && prefix[k] == Some(
                    RawNotePortInfo { id: info.id, ..(#[trigger] prefix[k])->0 },
                )) <==> !fresh) by {
                if !fresh {
                    let k = choose|k: int|
                        0 <= k < i && ports@[k] is Some && (#[trigger] ports@[k])->0.id == info.id;
                    assert(prefix[k] == Some(RawNotePortInfo { id: info.id, ..prefix[k]->0 }));
                }
            }
        }
        if !fresh {
            proof {
                lemma_note_ports_error_prefix(is_input, ports@, i + 1);
            }
            return Err(NotePortConfigError::DuplicateId { is_input, index: i, id: info.id });
        }
        match check_note_port_valid(info) {
            Ok(port) => out.push(port),
            Err(error) => {
                proof {
                    lemma_note_ports_error_prefix(is_input, ports@, i + 1);
                }
                return Err(NotePortConfigError::Invalid { is_input, index: i, error });
            },
        }
        i = i + 1;
    }
    assert(ports@.subrange(0, i as int) =~= ports@);
    Ok(out)
}

/// An error in a prefix of the ports is the error of all of them.
proof fn lemma_note_ports_error_prefix(is_input: bool, ports: Seq<Option<RawNotePortInfo>>, k: int)
    requires
        0 <= k <= ports.len(),
        note_ports_error(is_input, ports.subrange(0, k)) is Some,
    ensures
        note_ports_error(is_input, ports) == note_ports_error(is_input, ports.subrange(0, k)),
    decreases ports.len() - k,
{
    if k < ports.len() {
        let next = ports.subrange(0, k + 1);
        assert(next.drop_last() =~= ports.subrange(0, k));
        lemma_note_ports_error_prefix(is_input, ports, k + 1);
    } else {
        assert(ports.subrange(0, k) =~= ports);
    }
}

impl NotePortConfig {
    /// Check and collect a plugin's note ports, inputs first: for each port in order, the query
    /// must succeed, its stable ID must not repeat one of the same direction, and the port must be
    /// valid.
    pub fn from_ports(inputs: &Vec<Option<RawNotePortInfo>>, outputs: &Vec<Option<RawNotePortInfo>>) -> (r: Result<
        NotePortConfig,
        NotePortConfigError,
    >)
        ensures
            match r {
                Ok(c) => note_ports_error(true, inputs@) is None && note_ports_error(
                    false,
                    outputs@,
                ) is None && collects_note_ports(c.inputs@, inputs@) && collects_note_ports(
                    c.outputs@,
                    outputs@,
                ),
                Err(e) => note_ports_error(true, inputs@) == Some(e) || (note_ports_error(
                    true,
                    inputs@,
                ) is None && note_ports_error(false, outputs@) == Some(e)),
            },
    {
        let inputs = note_ports_of(true, inputs)?;
        let outputs = note_ports_of(false, outputs)?;
        Ok(NotePortConfig { inputs, outputs })
    }
}

/// The configuration for a single audio port.
pub struct AudioPort {
    pub id: u32,
    pub is_main: bool,
    /// The port type's bytes, when the port has a type.
    pub port_type: Option<Vec<u8>>,
    pub channel_count: u32,
    /// The stable ID of the port this one should be connected to for in-place processing.
    pub in_place_pair: Option<u32>,
    pub supports_double_sample_size: bool,
    pub prefers_double_sample_size: bool,
    pub requires_common_sample_size: bool,
}

/// An audio port's description as the plugin reports it.
pub struct RawAudioPortInfo {
    pub id: u32,
    pub flags: u32,
    pub channel_count: u32,
    pub port_type: Option<Vec<u8>>,
    pub in_place_pair: u32,
}

/// The port types the host knows.
#[derive(Clone, Copy, PartialEq, Eq, Structural, Debug)]
pub enum PortType {
    Mono,
    Stereo,
    Surround,
    Ambisonic,
    Other,
}

/// Why an audio port was refused.
#[derive(Clone, Copy, PartialEq, Eq, Structural, Debug)]
pub enum AudioPortError {
    /// The stable ID is `CLAP_INVALID_ID`.
    InvalidId,
    /// The port is marked as main but is not the first port.
    MainNotFirst,
    /// The port prefers 64-bit samples but does not support them.
    PrefersUnsupported64Bit,
    /// A mono port with this many channels.
    MonoChannelCount(u32),
    /// A stereo port with this many channels.
    StereoChannelCount(u32),
    /// A surround port, but the plugin lacks the surround extension.
    NoSurroundExtension,
    /// The surround channel map has this length, but the port has another channel count.
    SurroundMapLength { map_len: usize, channel_count: u32 },
    /// The plugin does not support the channel mask of its own channel map.
    SurroundMaskUnsupported(u64),
    /// An ambisonic port, but the plugin lacks the ambisonic extension.
    NoAmbisonicExtension,
    /// An ambisonic port whose channel count is not a perfect square.
    NotPerfectSquare(u32),
    /// The plugin could not report the port's ambisonic configuration.
    AmbisonicConfigFailed,
    /// The plugin does not support its own ambisonic configuration.
    AmbisonicConfigUnsupported,
}

/// What [`check_audio_port_flags`] decides for a port at `port_index`.
pub open spec fn audio_port_flags_error(port_index: u32, id: u32, flags: u32) -> Option<AudioPortError> {
    if id == CLAP_INVALID_ID {
        Some(AudioPortError::InvalidId)
    } else if flags & CLAP_AUDIO_PORT_IS_MAIN != 0 && port_index != 0 {
        Some(AudioPortError::MainNotFirst)
    } else if flags & CLAP_AUDIO_PORT_SUPPORTS_64BITS == 0 && flags & CLAP_AUDIO_PORT_PREFERS_64BITS
        != 0 {
        Some(AudioPortError::PrefersUnsupported64Bit)
    } else {
        None
    }
}

/// The first checks on an audio port: a valid ID, the main port first, and no preference for a
/// sample size it does not support.
pub fn check_audio_port_flags(port_index: u32, info: &RawAudioPortInfo) -> (r: Result<(), AudioPortError>)
    ensures
        match r {
            Ok(_) => audio_port_flags_error(port_index, info.id, info.flags) is None,
            Err(e) => audio_port_flags_error(port_index, info.id, info.flags) == Some(e),
        },
{
    if info.id == CLAP_INVALID_ID {
        return Err(AudioPortError::InvalidId);
    }
    if info.flags & CLAP_AUDIO_PORT_IS_MAIN != 0 && port_index != 0 {
        return Err(AudioPortError::MainNotFirst);
    }
    if info.flags & CLAP_AUDIO_PORT_SUPPORTS_64BITS == 0 && info.flags
        & CLAP_AUDIO_PORT_PREFERS_64BITS != 0 {
        return Err(AudioPortError::PrefersUnsupported64Bit);
    }
    Ok(())
}

/// The port type named by the bytes of a port type string.
pub open spec fn spec_port_type(name: Seq<u8>) -> PortType {
    if name == seq![109u8, 111u8, 110u8, 111u8] {
        PortType::Mono
    } else if name == seq![115u8, 116u8, 101u8, 114u8, 101u8, 111u8] {
        PortType::Stereo
    } else if name == seq![115u8, 117u8, 114u8, 114u8, 111u8, 117u8, 110u8, 100u8] {
        PortType::Surround
    } else if name == seq![97u8, 109u8, 98u8, 105u8, 115u8, 111u8, 110u8, 105u8, 99u8] {
        PortType::Ambisonic
    } else {
        PortType::Other
    }
}

/// Whether two byte sequences are equal.
pub(crate) fn bytes_eq(a: &Vec<u8>, b: &Vec<u8>) -> (r: bool)
    ensures
        r == (a@ == b@),
{
    if a.len() != b.len() {
        return false;
    }
    let mut i: usize = 0;
    while i < a.len()
        invariant
            a@.len() == b@.len(),
            i <= a@.len(),
            forall|j: int| 0 <= j < i ==> a@[j] == b@[j],
        decreases a.len() - i,
    {
        if a[i] != b[i] {
            return false;
        }
        i = i + 1;
    }
    assert(a@ =~= b@);
    true
}

/// The port type named by a port type string (`mono`, `stereo`, `surround`, `ambisonic`).
pub fn port_type(name: &Vec<u8>) -> (r: PortType)
    ensures
        r == spec_port_type(name@),
{
    let mono = vec![109u8, 111u8, 110u8, 111u8];
    let stereo = vec![115u8, 116u8, 101u8, 114u8, 101u8, 111u8];
    let surround = vec![115u8, 117u8, 114u8, 114u8, 111u8, 117u8, 110u8, 100u8];
    let ambisonic = vec![97u8, 109u8, 98u8, 105u8, 115u8, 111u8, 110u8, 105u8, 99u8];
    assert(mono@ =~= seq![109u8, 111u8, 110u8, 111u8]);
    assert(stereo@ =~= seq![115u8, 116u8, 101u8, 114u8, 101u8, 111u8]);
    assert(surround@ =~= seq![115u8, 117u8, 114u8, 114u8, 111u8, 117u8, 110u8, 100u8]);
    assert(ambisonic@ =~= seq![97u8, 109u8, 98u8, 105u8, 115u8, 111u8, 110u8, 105u8, 99u8]);
    if bytes_eq(name, &mono) {
        PortType::Mono
    } else if bytes_eq(name, &stereo) {
        PortType::Stereo
    } else if bytes_eq(name, &surround) {
        PortType::Surround
    } else if bytes_eq(name, &ambisonic) {
        PortType::Ambisonic
    } else {
        PortType::Other
    }
}

/// The square of a natural number.
pub open spec fn square(k: nat) -> nat {
    k * k
}

/// Whether `n` is the square of a natural number.
pub open spec fn spec_is_perfect_square(n: u32) -> bool {
    exists|k: nat| #[trigger] square(k) == n
}

/// Whether `n` is the square of a natural number, as an ambisonic channel count must be.
pub fn is_perfect_square(n: u32) -> (r: bool)
    ensures
        r == spec_is_perfect_square(n),
{
    let mut k: u64 = 0;
    loop
        invariant
            k <= 65536,
            forall|j: nat| j < k ==> #[trigger] square(j) < n,
        ensures
            k <= 65536,
            k * k >= n,
            forall|j: nat| j < k ==> #[trigger] square(j) < n,
        decreases 65536 - k,
    {
        assert(k * k <= 65536 * 65536) by (nonlinear_arith)
            requires
                k <= 65536,
        ;
        if k * k >= n as u64 {
            break;
        }
        assert(k < 65536) by (nonlinear_arith)
            requires
                k * k < n,
                n <= 0xffff_ffffu32,
        ;
        assert(square(k as nat) < n);
        k = k + 1;
    }
    assert(k * k <= 65536 * 65536) by (nonlinear_arith)
        requires
            k <= 65536,
    ;
    if k * k == n as u64 {
        assert(square(k as nat) == n);
        true
    } else {
        assert forall|j: nat| #[trigger] square(j) != n by {
            if j < k {
                assert(square(j) < n);
            } else {
                assert(j * j >= k * k) by (nonlinear_arith)
                    requires
                        j >= k,
                        k >= 0,
                ;
                assert(k * k != n);
            }
        }
        false
    }
}

/// The channel mask of a surround channel map: one bit per channel position.
pub open spec fn channel_mask_of(map: Seq<u8>) -> u64
    decreases map.len(),
{
    if map.len() == 0 {
        0
    } else {
        channel_mask_of(map.drop_last()) | (1u64 << (map.last() as u64))
    }
}

/// Setting bit `x` of a mask sets that bit and keeps every other.
proof fn lemma_set_bit(m: u64, x: u64, c: u64)
    by (bit_vector)
    requires
        x < 64,
        c < 64,
    ensures
        ((m | (1u64 << x)) >> c) & 1 == 1 <==> ((m >> c) & 1 == 1 || x == c),
        (0u64 >> c) & 1 == 0,
{
}

/// Bit `c` of a surround channel map's mask is set exactly when the map holds position `c`.
pub proof fn lemma_channel_mask_bits(map: Seq<u8>, c: u64)
    requires
        forall|i: int| 0 <= i < map.len() ==> map[i] < 64,
        c < 64,
    ensures
        (channel_mask_of(map) >> c) & 1 == 1 <==> map.contains(c as u8),
    decreases map.len(),
{
    lemma_set_bit(0, 0, c);
    if map.len() > 0 {
        let init = map.drop_last();
        lemma_channel_mask_bits(init, c);
        lemma_set_bit(channel_mask_of(init), map.last() as u64, c);
        if map.contains(c as u8) {
            let k = choose|k: int| 0 <= k < map.len() && map[k] == c as u8;
            if k < map.len() - 1 {
                assert(init[k] == c as u8);
            }
        }
        if init.contains(c as u8) {
            let k = choose|k: int| 0 <= k < init.len() && init[k] == c as u8;
            assert(map[k] == c as u8);
        }
    }
}

/// The channel mask of a surround channel map, whose positions must each be below 64.
pub fn surround_channel_mask(map: &Vec<u8>) -> (r: u64)
    requires
        forall|i: int| 0 <= i < map@.len() ==> map@[i] < 64,
    ensures
        r == channel_mask_of(map@),
{
    let mut mask: u64 = 0;
    let mut i: usize = 0;
    while i < map.len()
        invariant
            i <= map@.len(),
            forall|j: int| 0 <= j < map@.len() ==> map@[j] < 64,
            mask == channel_mask_of(map@.subrange(0, i as int)),
        decreases map.len() - i,
    {
        proof {
            let s = map@.subrange(0, i + 1);
            assert(s.drop_last() =~= map@.subrange(0, i as int));
            assert(s.last() == map@[i as int]);
        }
        mask = mask | (1u64 << (map[i] as u64));
        i = i + 1;
    }
    assert(map@.subrange(0, i as int) =~= map@);
    mask
}

/// What the plugin's surround extension said about a surround port.
#[derive(Clone, Copy, PartialEq, Eq, Structural, Debug)]
pub enum SurroundAnswer {
    /// The plugin has no surround extension.
    Missing,
    /// The length of the port's channel map, its channel mask, and whether the plugin supports
    /// that mask.
    Present { map_len: usize, mask: u64, mask_supported: bool },
}

/// What the plugin's ambisonic extension said about an ambisonic port.
#[derive(Clone, Copy, PartialEq, Eq, Structural, Debug)]
pub enum AmbisonicAnswer {
    /// The plugin has no ambisonic extension.
    Missing,
    /// The plugin could not report the port's configuration.
    ConfigFailed,
    /// The plugin reported a configuration and said whether it supports it.
    Present { supported: bool },
}

/// What [`check_audio_port_type_consistent`] decides.
pub open spec fn port_type_error(
    port_type: Option<PortType>,
    channel_count: u32,
    surround: SurroundAnswer,
    ambisonic: AmbisonicAnswer,
) -> Option<AudioPortError> {
    match port_type {
        None => None,
        Some(PortType::Mono) => if channel_count == 1 {
            None
        } else {
            Some(AudioPortError::MonoChannelCount(channel_count))
        },
        Some(PortType::Stereo) => if channel_count == 2 {
            None
        } else {
            Some(AudioPortError::StereoChannelCount(channel_count))
        },
        Some(PortType::Surround) => match surround {
            SurroundAnswer::Missing => Some(AudioPortError::NoSurroundExtension),
            SurroundAnswer::Present { map_len, mask, mask_supported } => if map_len
                != channel_count {
                Some(AudioPortError::SurroundMapLength { map_len, channel_count })
            } else if !mask_supported {
                Some(AudioPortError::SurroundMaskUnsupported(mask))
            } else {
                None
            },
        },
        Some(PortType::Ambisonic) => match ambisonic {
            AmbisonicAnswer::Missing => Some(AudioPortError::NoAmbisonicExtension),
            _ => if !spec_is_perfect_square(channel_count) {
                Some(AudioPortError::NotPerfectSquare(channel_count))
            } else {
                match ambisonic {
                    AmbisonicAnswer::ConfigFailed => Some(AudioPortError::AmbisonicConfigFailed),
                    AmbisonicAnswer::Present { supported } => if supported {
                        None
                    } else {
                        Some(AudioPortError::AmbisonicConfigUnsupported)
                    },
                    AmbisonicAnswer::Missing => None,
                }
            },
        },
        Some(PortType::Other) => None,
    }
}

/// A mono port passes the type check exactly when it has one channel, and a stereo port
/// exactly when it has two; otherwise the error names the channel count. A surround port passes
/// only with the surround extension, a channel map as long as its channel count and a supported
/// mask. An ambisonic port passes only with the ambisonic extension, a square channel count and
/// a supported configuration. Ports without a type or of another type always pass.
pub proof fn lemma_port_type_laws(
    port_type: Option<PortType>,
    channel_count: u32,
    surround: SurroundAnswer,
    ambisonic: AmbisonicAnswer,
)
    ensures
        port_type == Some(PortType::Mono) ==> (port_type_error(
            port_type,
            channel_count,
            surround,
            ambisonic,
        ) is None <==> channel_count == 1),
        port_type == Some(PortType::Mono) && channel_count != 1 ==> port_type_error(
            port_type,
            channel_count,
            surround,
            ambisonic,
        ) == Some(AudioPortError::MonoChannelCount(channel_count)),
        port_type == Some(PortType::Stereo) ==> (port_type_error(
            port_type,
            channel_count,
            surround,
            ambisonic,
        ) is None <==> channel_count == 2),
        port_type == Some(PortType::Stereo) && channel_count != 2 ==> port_type_error(
            port_type,
            channel_count,
            surround,
            ambisonic,
        ) == Some(AudioPortError::StereoChannelCount(channel_count)),
        port_type == Some(PortType::Surround) ==> (port_type_error(
            port_type,
            channel_count,
            surround,
            ambisonic,
        ) is None <==> (surround matches SurroundAnswer::Present { map_len, mask_supported, .. }
            && map_len == channel_count && mask_supported)),
        port_type == Some(PortType::Ambisonic) ==> (port_type_error(
            port_type,
            channel_count,
            surround,
            ambisonic,
        ) is None <==> (ambisonic == AmbisonicAnswer::Present { supported: true } && exists|
            k: nat,
        | #[trigger] square(k) == channel_count)),
        port_type is None || port_type == Some(PortType::Other) ==> port_type_error(
            port_type,
            channel_count,
            surround,
            ambisonic,
        ) is None,
{
}

/// Check that a port's type agrees with its channel count and with what the surround and
/// ambisonic extensions report. Ports without a type, or of an unknown type, pass.
pub fn check_audio_port_type_consistent(
    port_type: Option<PortType>,
    channel_count: u32,
    surround: SurroundAnswer,
    ambisonic: AmbisonicAnswer,
) -> (r: Result<(), AudioPortError>)
    ensures
        match r {
            Ok(_) => port_type_error(port_type, channel_count, surround, ambisonic) is None,
            Err(e) => port_type_error(port_type, channel_count, surround, ambisonic) == Some(e),
        },
        port_type == Some(PortType::Mono) ==> (r is Ok <==> channel_count == 1),
        port_type == Some(PortType::Stereo) ==> (r is Ok <==> channel_count == 2),
        port_type is None || port_type == Some(PortType::Other) ==> r is Ok,
{
    proof {
        lemma_port_type_laws(port_type, channel_count, surround, ambisonic);
    }
    match port_type {
        None => Ok(()),
        Some(PortType::Mono) => if channel_count == 1 {
            Ok(())
        } else {
            Err(AudioPortError::MonoChannelCount(channel_count))
        },
        Some(PortType::Stereo) => if channel_count == 2 {
            Ok(())
        } else {
            Err(AudioPortError::StereoChannelCount(channel_count))
        },
        Some(PortType::Surround) => match surround {
            SurroundAnswer::Missing => Err(AudioPortError::NoSurroundExtension),
            SurroundAnswer::Present { map_len, mask, mask_supported } => {
                if map_len as u64 != channel_count as u64 {
                    Err(AudioPortError::SurroundMapLength { map_len, channel_count })
                } else if !mask_supported {
                    Err(AudioPortError::SurroundMaskUnsupported(mask))
                } else {
                    Ok(())
                }
            },
        },
        Some(PortType::Ambisonic) => match ambisonic {
            AmbisonicAnswer::Missing => Err(AudioPortError::NoAmbisonicExtension),
            _ => if !is_perfect_square(channel_count) {
                Err(AudioPortError::NotPerfectSquare(channel_count))
            } else {
                match ambisonic {
                    AmbisonicAnswer::ConfigFailed => Err(AudioPortError::AmbisonicConfigFailed),
                    AmbisonicAnswer::Present { supported } => if supported {
                        Ok(())
                    } else {
                        Err(AudioPortError::AmbisonicConfigUnsupported)
                    },
                    AmbisonicAnswer::Missing => Ok(()),
                }
            },
        },
        Some(PortType::Other) => Ok(()),
    }
}

impl AudioPort {
    /// The port a checked description stands for.
    pub fn from_info(info: RawAudioPortInfo) -> (r: AudioPort)
        ensures
            r.id == info.id,
            r.is_main == (info.flags & CLAP_AUDIO_PORT_IS_MAIN != 0),
            r.channel_count == info.channel_count,
            r.in_place_pair == if info.in_place_pair == CLAP_INVALID_ID {
                None
            } else {
                Some(info.in_place_pair)
            },
            r.supports_double_sample_size == (info.flags & CLAP_AUDIO_PORT_SUPPORTS_64BITS != 0),
            r.prefers_double_sample_size == (info.flags & CLAP_AUDIO_PORT_PREFERS_64BITS != 0),
            r.requires_common_sample_size == (info.flags
                & CLAP_AUDIO_PORT_REQUIRES_COMMON_SAMPLE_SIZE != 0),
            r.port_type == info.port_type,
    {
        AudioPort {
            id: info.id,
            is_main: info.flags & CLAP_AUDIO_PORT_IS_MAIN != 0,
            port_type: info.port_type,
            channel_count: info.channel_count,
            in_place_pair: if info.in_place_pair == CLAP_INVALID_ID {
                None
            } else {
                Some(info.in_place_pair)
            },
            supports_double_sample_size: info.flags & CLAP_AUDIO_PORT_SUPPORTS_64BITS != 0,
            prefers_double_sample_size: info.flags & CLAP_AUDIO_PORT_PREFERS_64BITS != 0,
            requires_common_sample_size: info.flags & CLAP_AUDIO_PORT_REQUIRES_COMMON_SAMPLE_SIZE
                != 0,
        }
    }
}

/// Why a plugin's audio port configuration was refused as a whole.
#[derive(Clone, Copy, PartialEq, Eq, Structural, Debug)]
pub enum AudioConfigError {
    /// Some ports needing a common sample size support only 32-bit samples, others 64-bit ones.
    MixedCommonSampleSize,
    /// The port at this index repeats the stable ID of an earlier port in the same direction.
    DuplicateId { is_input: bool, index: usize, id: u32 },
}

/// Whether some port needs a common sample size and supports 64-bit samples (or not).
pub open spec fn has_common_port(ports: Seq<AudioPort>, double: bool) -> bool {
    exists|i: int|
        0 <= i < ports.len() && (#[trigger] ports[i]).requires_common_sample_size
            && ports[i].supports_double_sample_size == double
}

/// The index of the first port whose ID repeats an earlier one, if any.
pub open spec fn first_duplicate(ports: Seq<AudioPort>) -> Option<int>
    decreases ports.len(),
{
    if ports.len() == 0 {
        None
    } else {
        match first_duplicate(ports.drop_last()) {
            Some(k) => Some(k),
            None => if exists|j: int|
                0 <= j < ports.len() - 1 && (#[trigger] ports[j]).id == ports.last().id {
                Some(ports.len() - 1)
            } else {
                None
            },
        }
    }
}

/// A repeated ID found in a prefix of the ports is the first one of all of them.
proof fn lemma_first_duplicate_prefix(ports: Seq<AudioPort>, k: int)
    requires
        0 <= k <= ports.len(),
        first_duplicate(ports.subrange(0, k)) is Some,
    ensures
        first_duplicate(ports) == first_duplicate(ports.subrange(0, k)),
    decreases ports.len() - k,
{
    if k < ports.len() {
        let next = ports.subrange(0, k + 1);
        assert(next.drop_last() =~= ports.subrange(0, k));
        lemma_first_duplicate_prefix(ports, k + 1);
    } else {
        assert(ports.subrange(0, k) =~= ports);
    }
}

/// Whether some port needs a common sample size and supports 64-bit samples (or not).
fn any_common_port(inputs: &Vec<AudioPort>, outputs: &Vec<AudioPort>, double: bool) -> (r: bool)
    ensures
        r == (has_common_port(inputs@, double) || has_common_port(outputs@, double)),
{
    let mut i: usize = 0;
    while i < inputs.len()
        invariant
            i <= inputs@.len(),
            forall|j: int|
                0 <= j < i ==> !((#[trigger] inputs@[j]).requires_common_sample_size
                    && inputs@[j].supports_double_sample_size == double),
        decreases inputs.len() - i,
    {
        if inputs[i].requires_common_sample_size && inputs[i].supports_double_sample_size == double {
            assert(has_common_port(inputs@, double));
            return true;
        }
        i = i + 1;
    }
    let mut k: usize = 0;
    while k < outputs.len()
        invariant
            k <= outputs@.len(),
            !has_common_port(inputs@, double),
            forall|j: int|
                0 <= j < k ==> !((#[trigger] outputs@[j]).requires_common_sample_size
                    && outputs@[j].supports_double_sample_size == double),
        decreases outputs.len() - k,
    {
        if outputs[k].requires_common_sample_size && outputs[k].supports_double_sample_size
            == double {
            assert(has_common_port(outputs@, double));
            return true;
        }
        k = k + 1;
    }
    false
}

/// The index of the first port whose ID repeats an earlier one in the same list.
fn find_duplicate(ports: &Vec<AudioPort>) -> (r: Option<usize>)
    ensures
        match r {
            Some(k) => first_duplicate(ports@) == Some(k as int) && k < ports@.len(),
            None => first_duplicate(ports@) is None,
        },
{
    let mut ids: HashSet<u32> = HashSet::new();
    let mut k: usize = 0;
    while k < ports.len()
        invariant
            k <= ports@.len(),
            forall|x: u32|
                ids@.contains(x) <==> exists|j: int| 0 <= j < k && (#[trigger] ports@[j]).id == x,
            first_duplicate(ports@.subrange(0, k as int)) is None,
        decreases ports.len() - k,
    {
        let ghost next = ports@.subrange(0, k + 1);
        proof {
            assert(next.drop_last() =~= ports@.subrange(0, k as int));
            assert(next.last() == ports@[k as int]);
            assert(forall|j: int| 0 <= j < k ==> next[j] == ports@[j]);
        }
        let fresh = ids.insert(ports[k].id);
        if !fresh {
            proof {
                let j = choose|j: int| 0 <= j < k && (#[trigger] ports@[j]).id == ports@[k as int].id;
                assert(next[j].id == next.last().id);
                assert(first_duplicate(next) == Some(k as int));
                lemma_first_duplicate_prefix(ports@, k + 1);
            }
            return Some(k);
        }
        proof {
            assert(!exists|j: int| 0 <= j < next.len() - 1 && (#[trigger] next[j]).id == next.last().id);
            assert(first_duplicate(next) is None);
        }
        k = k + 1;
    }
    assert(ports@.subrange(0, k as int) =~= ports@);
    None
}

/// Check a plugin's audio ports as a whole: the ports needing a common sample size must agree
/// on 64-bit support, and no stable ID may repeat within the inputs or within the outputs.
pub fn check_audio_port_config(inputs: &Vec<AudioPort>, outputs: &Vec<AudioPort>) -> (r: Result<(), AudioConfigError>)
    ensures
        ((has_common_port(inputs@, false) || has_common_port(outputs@, false)) && (has_common_port(
            inputs@,
            true,
        ) || has_common_port(outputs@, true))) ==> r == Err::<(), AudioConfigError>(
            AudioConfigError::MixedCommonSampleSize,
        ),
        !((has_common_port(inputs@, false) || has_common_port(outputs@, false)) && (
        has_common_port(inputs@, true) || has_common_port(outputs@, true))) ==> match r {
            Ok(_) => first_duplicate(inputs@) is None && first_duplicate(outputs@) is None,
            Err(AudioConfigError::DuplicateId { is_input, index, id }) => if is_input {
                first_duplicate(inputs@) == Some(index as int) && id == inputs@[index as int].id
            } else {
                first_duplicate(inputs@) is None && first_duplicate(outputs@) == Some(index as int)
                    && id == outputs@[index as int].id
            },
            Err(_) => false,
        },
{
    let single = any_common_port(inputs, outputs, false);
    let double = any_common_port(inputs, outputs, true);
    if single && double {
        return Err(AudioConfigError::MixedCommonSampleSize);
    }
    match find_duplicate(inputs) {
        Some(k) => return Err(AudioConfigError::DuplicateId { is_input: true, index: k, id: inputs[k].id }),
        None => {},
    }
    match find_duplicate(outputs) {
        Some(k) => return Err(AudioConfigError::DuplicateId { is_input: false, index: k, id: outputs[k].id }),
        None => {},
    }
    Ok(())
}

} // verus!
