//! Events exchanged with the plugin: MIDI messages, the host's input queue, and the checks on
//! the events a plugin outputs.

use vstd::prelude::*;

verus! {

/// The core event space.
pub const CLAP_CORE_EVENT_SPACE_ID: u16 = 0;

pub const CLAP_EVENT_NOTE_ON: u16 = 0;
pub const CLAP_EVENT_NOTE_OFF: u16 = 1;
pub const CLAP_EVENT_NOTE_CHOKE: u16 = 2;
pub const CLAP_EVENT_NOTE_END: u16 = 3;
pub const CLAP_EVENT_NOTE_EXPRESSION: u16 = 4;
pub const CLAP_EVENT_PARAM_VALUE: u16 = 5;
pub const CLAP_EVENT_PARAM_MOD: u16 = 6;
pub const CLAP_EVENT_PARAM_GESTURE_BEGIN: u16 = 7;
pub const CLAP_EVENT_PARAM_GESTURE_END: u16 = 8;
pub const CLAP_EVENT_TRANSPORT: u16 = 9;
pub const CLAP_EVENT_MIDI: u16 = 10;
pub const CLAP_EVENT_MIDI_SYSEX: u16 = 11;
pub const CLAP_EVENT_MIDI2: u16 = 12;

/// The kinds of events the host tells apart.
#[derive(Clone, Copy, PartialEq, Eq, Structural, Debug)]
pub enum EventKind {
    /// Note on, note off, note choke or note end.
    Note,
    NoteExpression,
    Midi,
    Midi2,
    Sysex,
    ParamValue,
    ParamMod,
    /// Parameter gesture begin or end.
    ParamGesture,
    Transport,
    /// An event the host does not recognize.
    Unknown,
}

/// The kind of an event with the given space and type.
pub open spec fn spec_event_kind(space_id: u16, type_id: u16) -> EventKind {
    if space_id != CLAP_CORE_EVENT_SPACE_ID {
        EventKind::Unknown
    } else if type_id <= CLAP_EVENT_NOTE_END {
        EventKind::Note
    } else if type_id == CLAP_EVENT_NOTE_EXPRESSION {
        EventKind::NoteExpression
    } else if type_id == CLAP_EVENT_PARAM_VALUE {
        EventKind::ParamValue
    } else if type_id == CLAP_EVENT_PARAM_MOD {
        EventKind::ParamMod
    } else if type_id == CLAP_EVENT_PARAM_GESTURE_BEGIN || type_id == CLAP_EVENT_PARAM_GESTURE_END {
        EventKind::ParamGesture
    } else if type_id == CLAP_EVENT_MIDI {
        EventKind::Midi
    } else if type_id == CLAP_EVENT_MIDI2 {
        EventKind::Midi2
    } else if type_id == CLAP_EVENT_MIDI_SYSEX {
        EventKind::Sysex
    } else if type_id == CLAP_EVENT_TRANSPORT {
        EventKind::Transport
    } else {
        EventKind::Unknown
    }
}

/// The kind of an event, from its header's space and type.
pub fn event_kind(space_id: u16, type_id: u16) -> (r: EventKind)
    ensures
        r == spec_event_kind(space_id, type_id),
{
    if space_id != CLAP_CORE_EVENT_SPACE_ID {
        EventKind::Unknown
    } else if type_id <= CLAP_EVENT_NOTE_END {
        EventKind::Note
    } else if type_id == CLAP_EVENT_NOTE_EXPRESSION {
        EventKind::NoteExpression
    } else if type_id == CLAP_EVENT_PARAM_VALUE {
        EventKind::ParamValue
    } else if type_id == CLAP_EVENT_PARAM_MOD {
        EventKind::ParamMod
    } else if type_id == CLAP_EVENT_PARAM_GESTURE_BEGIN || type_id == CLAP_EVENT_PARAM_GESTURE_END {
        EventKind::ParamGesture
    } else if type_id == CLAP_EVENT_MIDI {
        EventKind::Midi
    } else if type_id == CLAP_EVENT_MIDI2 {
        EventKind::Midi2
    } else if type_id == CLAP_EVENT_MIDI_SYSEX {
        EventKind::Sysex
    } else if type_id == CLAP_EVENT_TRANSPORT {
        EventKind::Transport
    } else {
        EventKind::Unknown
    }
}

/// The kinds of the core events, by their CLAP type numbers: 0 to 3 are note events (on, off,
/// choke, end), 4 a note expression, 5 a parameter value, 6 a parameter modulation, 7 and 8 the
/// beginning and end of a parameter gesture, 9 the transport, 10 a MIDI message, 11 a SysEx
/// message and 12 a MIDI 2 message; other numbers, and events outside the core space, are
/// unknown. In particular only type 9 is a transport event.
pub proof fn lemma_core_event_kinds(space_id: u16, type_id: u16)
    ensures
        space_id != 0 ==> spec_event_kind(space_id, type_id) == EventKind::Unknown,
        space_id == 0 ==> (spec_event_kind(space_id, type_id) == EventKind::Transport <==> type_id == 9),
        space_id == 0 ==> (spec_event_kind(space_id, type_id) == EventKind::ParamGesture <==> (type_id == 7
            || type_id == 8)),
        space_id == 0 ==> (spec_event_kind(space_id, type_id) == EventKind::Note <==> type_id <= 3),
        space_id == 0 ==> (spec_event_kind(space_id, type_id) == EventKind::NoteExpression <==> type_id
            == 4),
        space_id == 0 ==> (spec_event_kind(space_id, type_id) == EventKind::ParamValue <==> type_id == 5),
        space_id == 0 ==> (spec_event_kind(space_id, type_id) == EventKind::ParamMod <==> type_id == 6),
        space_id == 0 ==> (spec_event_kind(space_id, type_id) == EventKind::Midi <==> type_id == 10),
        space_id == 0 ==> (spec_event_kind(space_id, type_id) == EventKind::Sysex <==> type_id == 11),
        space_id == 0 ==> (spec_event_kind(space_id, type_id) == EventKind::Midi2 <==> type_id == 12),
        space_id == 0 ==> (spec_event_kind(space_id, type_id) == EventKind::Unknown <==> type_id > 12),
{
}

/// A MIDI 1.0 channel message. The pitch bend value is the raw 14-bit value, 8192 at rest.
#[derive(Clone, Copy, PartialEq, Eq, Structural, Debug)]
#[allow(inconsistent_fields)]
pub enum MidiEvent {
    NoteOn { key: u8, velocity: u8, channel: u8 },
    NoteOff { key: u8, velocity: u8, channel: u8 },
    NotePressure { key: u8, pressure: u8, channel: u8 },
    ControlChange { param: u8, value: u8, channel: u8 },
    ProgramChange { program: u8, channel: u8 },
    ChannelPressure { pressure: u8, channel: u8 },
    PitchBend { value: u16, channel: u8 },
}

/// The three bytes of a MIDI message.
pub open spec fn spec_into_bytes(e: MidiEvent) -> [u8; 3] {
    match e {
        MidiEvent::NoteOn { key, velocity, channel } => [0x90 | channel, key & 0x7f, velocity & 0x7f],
        MidiEvent::NoteOff { key, velocity, channel } => [0x80 | channel, key & 0x7f, velocity & 0x7f],
        MidiEvent::NotePressure { key, pressure, channel } => [
            0xa0 | channel,
            key & 0x7f,
            pressure & 0x7f,
        ],
        MidiEvent::ControlChange { param, value, channel } => [
            0xb0 | channel,
            param & 0x7f,
            value & 0x7f,
        ],
        MidiEvent::ProgramChange { program, channel } => [0xc0 | channel, program & 0x7f, 0],
        MidiEvent::ChannelPressure { pressure, channel } => [0xd0 | channel, pressure & 0x7f, 0],
        MidiEvent::PitchBend { value, channel } => [
            0xe0 | channel,
            (value & 0x7f) as u8,
            ((value >> 7) & 0x7f) as u8,
        ],
    }
}

/// The message that three MIDI bytes encode, if they are a channel message. A note on with
/// velocity zero is a note off.
pub open spec fn spec_parse(bytes: [u8; 3]) -> Option<MidiEvent> {
    let (a, b, c) = (bytes[0], bytes[1], bytes[2]);
    let status = a & 0xf0;
    let channel = a & 0x0f;
    if status == 0x80 {
        Some(MidiEvent::NoteOff { key: b, velocity: c, channel })
    } else if status == 0x90 && c == 0 {
        Some(MidiEvent::NoteOff { key: b, velocity: 0, channel })
    } else if status == 0x90 {
        Some(MidiEvent::NoteOn { key: b, velocity: c, channel })
    } else if status == 0xa0 {
        Some(MidiEvent::NotePressure { key: b, pressure: c, channel })
    } else if status == 0xb0 {
        Some(MidiEvent::ControlChange { param: b, value: c, channel })
    } else if status == 0xc0 {
        Some(MidiEvent::ProgramChange { program: b, channel })
    } else if status == 0xd0 {
        Some(MidiEvent::ChannelPressure { pressure: b, channel })
    } else if status == 0xe0 {
        Some(MidiEvent::PitchBend { value: ((c as u16) << 7) | (b as u16), channel })
    } else {
        None
    }
}

impl MidiEvent {
    /// Encode the message as three MIDI bytes. Data bytes are cut to seven bits.
    pub fn into_bytes(self) -> (r: [u8; 3])
        ensures
            r == spec_into_bytes(self),
    {
        match self {
            MidiEvent::NoteOn { key, velocity, channel } => [0x90 | channel, key & 0x7f, velocity
                & 0x7f],
            MidiEvent::NoteOff { key, velocity, channel } => [0x80 | channel, key & 0x7f, velocity
                & 0x7f],
            MidiEvent::NotePressure { key, pressure, channel } => [
                0xa0 | channel,
                key & 0x7f,
                pressure & 0x7f,
            ],
            MidiEvent::ControlChange { param, value, channel } => [
                0xb0 | channel,
                param & 0x7f,
                value & 0x7f,
            ],
            MidiEvent::ProgramChange { program, channel } => [0xc0 | channel, program & 0x7f, 0],
            MidiEvent::ChannelPressure { pressure, channel } => [0xd0 | channel, pressure & 0x7f, 0],
            MidiEvent::PitchBend { value, channel } => [
                0xe0 | channel,
                (value & 0x7f) as u8,
                ((value >> 7) & 0x7f) as u8,
            ],
        }
    }

    /// Decode three MIDI bytes, if they are a channel message.
    pub fn parse(bytes: [u8; 3]) -> (r: Option<MidiEvent>)
        ensures
            r == spec_parse(bytes),
    {
        let a = bytes[0];
        let b = bytes[1];
        let c = bytes[2];
        let status = a & 0xf0;
        let channel = a & 0x0f;
        if status == 0x80 {
            Some(MidiEvent::NoteOff { key: b, velocity: c, channel })
        } else if status == 0x90 && c == 0 {
            Some(MidiEvent::NoteOff { key: b, velocity: 0, channel })
        } else if status == 0x90 {
            Some(MidiEvent::NoteOn { key: b, velocity: c, channel })
        } else if status == 0xa0 {
            Some(MidiEvent::NotePressure { key: b, pressure: c, channel })
        } else if status == 0xb0 {
            Some(MidiEvent::ControlChange { param: b, value: c, channel })
        } else if status == 0xc0 {
            Some(MidiEvent::ProgramChange { program: b, channel })
        } else if status == 0xd0 {
            Some(MidiEvent::ChannelPressure { pressure: b, channel })
        } else if status == 0xe0 {
            Some(MidiEvent::PitchBend { value: ((c as u16) << 7) | (b as u16), channel })
        } else {
            None
        }
    }
}

/// Whether a message fits the MIDI format: a channel below 16, data bytes below 128, and a pitch
/// bend value below 16384.
pub open spec fn well_formed_midi(e: MidiEvent) -> bool {
    match e {
        MidiEvent::NoteOn { key, velocity, channel } => channel < 16 && key < 128 && velocity < 128,
        MidiEvent::NoteOff { key, velocity, channel } => channel < 16 && key < 128 && velocity < 128,
        MidiEvent::NotePressure { key, pressure, channel } => channel < 16 && key < 128 && pressure
            < 128,
        MidiEvent::ControlChange { param, value, channel } => channel < 16 && param < 128 && value
            < 128,
        MidiEvent::ProgramChange { program, channel } => channel < 16 && program < 128,
        MidiEvent::ChannelPressure { pressure, channel } => channel < 16 && pressure < 128,
        MidiEvent::PitchBend { value, channel } => channel < 16 && value < 16384,
    }
}

/// Each message encodes to its MIDI 1.0 status byte, the kind's status (note off `0x80`, note on
/// `0x90`, note pressure `0xA0`, control change `0xB0`, program change `0xC0`, channel pressure
/// `0xD0`, pitch bend `0xE0`) plus the channel, followed by its data bytes; a pitch bend sends the
/// low seven bits of its value first.
pub proof fn lemma_midi_status_bytes(e: MidiEvent)
    requires
        well_formed_midi(e),
    ensures
        match e {
            MidiEvent::NoteOff { key, velocity, channel } => spec_into_bytes(e)[0] == 0x80 + channel
                && spec_into_bytes(e)[1] == key && spec_into_bytes(e)[2] == velocity,
            MidiEvent::NoteOn { key, velocity, channel } => spec_into_bytes(e)[0] == 0x90 + channel
                && spec_into_bytes(e)[1] == key && spec_into_bytes(e)[2] == velocity,
            MidiEvent::NotePressure { key, pressure, channel } => spec_into_bytes(e)[0] == 0xa0
                + channel && spec_into_bytes(e)[1] == key && spec_into_bytes(e)[2] == pressure,
            MidiEvent::ControlChange { param, value, channel } => spec_into_bytes(e)[0] == 0xb0
                + channel && spec_into_bytes(e)[1] == param && spec_into_bytes(e)[2] == value,
            MidiEvent::ProgramChange { program, channel } => spec_into_bytes(e)[0] == 0xc0 + channel
                && spec_into_bytes(e)[1] == program && spec_into_bytes(e)[2] == 0,
            MidiEvent::ChannelPressure { pressure, channel } => spec_into_bytes(e)[0] == 0xd0
                + channel && spec_into_bytes(e)[1] == pressure && spec_into_bytes(e)[2] == 0,
            MidiEvent::PitchBend { value, channel } => spec_into_bytes(e)[0] == 0xe0 + channel
                && spec_into_bytes(e)[1] == value % 128 && spec_into_bytes(e)[2] == value / 128,
        },
{
    match e {
        MidiEvent::NoteOff { key, velocity, channel } => {
            assert(0x80u8 | channel == 0x80 + channel && key & 0x7f == key && velocity & 0x7f == velocity) by (bit_vector)
                requires
                    channel < 16,
                    key < 128,
                    velocity < 128,
            ;
        },
        MidiEvent::NoteOn { key, velocity, channel } => {
            assert(0x90u8 | channel == 0x90 + channel && key & 0x7f == key && velocity & 0x7f == velocity) by (bit_vector)
                requires
                    channel < 16,
                    key < 128,
                    velocity < 128,
            ;
        },
        MidiEvent::NotePressure { key, pressure, channel } => {
            assert(0xa0u8 | channel == 0xa0 + channel && key & 0x7f == key && pressure & 0x7f == pressure) by (bit_vector)
                requires
                    channel < 16,
                    key < 128,
                    pressure < 128,
            ;
        },
        MidiEvent::ControlChange { param, value, channel } => {
            assert(0xb0u8 | channel == 0xb0 + channel && param & 0x7f == param && value & 0x7f == value) by (bit_vector)
                requires
                    channel < 16,
                    param < 128,
                    value < 128,
            ;
        },
        MidiEvent::ProgramChange { program, channel } => {
            assert(0xc0u8 | channel == 0xc0 + channel && program & 0x7f == program) by (bit_vector)
                requires
                    channel < 16,
                    program < 128,
            ;
        },
        MidiEvent::ChannelPressure { pressure, channel } => {
            assert(0xd0u8 | channel == 0xd0 + channel && pressure & 0x7f == pressure) by (bit_vector)
                requires
                    channel < 16,
                    pressure < 128,
            ;
        },
        MidiEvent::PitchBend { value, channel } => {
            assert(0xe0u8 | channel == 0xe0 + channel) by (bit_vector)
                requires
                    channel < 16,
            ;
            assert((value & 0x7f) as u8 == value % 128 && ((value >> 7) & 0x7f) as u8 == value / 128)
                by (bit_vector)
                requires
                    value < 16384,
            ;
        },
    }
}

/// Three bytes decode by their status nibble, the high four bits of the first byte, with the
/// channel in its low four bits: `0x8_` is a note off, `0x9_` a note on (a note off at velocity
/// zero), `0xA_` note pressure, `0xB_` a control change, `0xC_` a program change, `0xD_` channel
/// pressure and `0xE_` a pitch bend, whose value is the second byte plus 128 times the third.
pub proof fn lemma_midi_parse_status(channel: u8, b: u8, c: u8)
    requires
        channel < 16,
        b < 128,
        c < 128,
    ensures
        spec_parse([(0x80 + channel) as u8, b, c]) == Some(MidiEvent::NoteOff { key: b, velocity: c, channel }),
        c > 0 ==> spec_parse([(0x90 + channel) as u8, b, c]) == Some(
            MidiEvent::NoteOn { key: b, velocity: c, channel },
        ),
        spec_parse([(0x90 + channel) as u8, b, 0]) == Some(MidiEvent::NoteOff { key: b, velocity: 0, channel }),
        spec_parse([(0xa0 + channel) as u8, b, c]) == Some(
            MidiEvent::NotePressure { key: b, pressure: c, channel },
        ),
        spec_parse([(0xb0 + channel) as u8, b, c]) == Some(
            MidiEvent::ControlChange { param: b, value: c, channel },
        ),
        spec_parse([(0xc0 + channel) as u8, b, c]) == Some(MidiEvent::ProgramChange { program: b, channel }),
        spec_parse([(0xd0 + channel) as u8, b, c]) == Some(
            MidiEvent::ChannelPressure { pressure: b, channel },
        ),
        spec_parse([(0xe0 + channel) as u8, b, c]) matches Some(MidiEvent::PitchBend { value, channel: ch })
            && value == b + 128 * c && ch == channel,
        spec_parse([channel, b, c]) is None,
{
    assert(((0x80 + channel) as u8) & 0xf0 == 0x80 && ((0x80 + channel) as u8) & 0x0f == channel && ((0x90 + channel) as u8) & 0xf0 == 0x90 && ((0x90 + channel) as u8) & 0x0f == channel && ((0xa0 + channel) as u8) & 0xf0 == 0xa0 && ((0xa0 + channel) as u8) & 0x0f == channel && ((0xb0 + channel) as u8) & 0xf0 == 0xb0 && ((0xb0 + channel) as u8) & 0x0f == channel && ((0xc0 + channel) as u8) & 0xf0 == 0xc0 && ((0xc0 + channel) as u8) & 0x0f == channel && ((0xd0 + channel) as u8) & 0xf0 == 0xd0 && ((0xd0 + channel) as u8) & 0x0f == channel && ((0xe0 + channel) as u8) & 0xf0 == 0xe0 && ((0xe0 + channel) as u8) & 0x0f == channel && channel & 0xf0 == 0 && channel & 0x0f == channel && ((c as u16) << 7) | (b as u16) == b + 128 * c)
        by (bit_vector)
        requires
            channel < 16,
            b < 128,
            c < 128,
    ;
}

/// Decoding an encoded message gives it back, except that a note on with velocity zero comes
/// back as a note off with velocity zero.
pub proof fn lemma_midi_roundtrip(e: MidiEvent)
    requires
        well_formed_midi(e),
    ensures
        e matches MidiEvent::NoteOn { key, velocity, channel } ==> (velocity == 0 ==> spec_parse(
            spec_into_bytes(e),
        ) == Some(MidiEvent::NoteOff { key, velocity: 0, channel })),
        !(e matches MidiEvent::NoteOn { velocity, .. } && velocity == 0) ==> spec_parse(
            spec_into_bytes(e),
        ) == Some(e),
{
    match e {
        MidiEvent::NoteOn { key, velocity, channel } => {
            assert((0x90u8 | channel) & 0xf0 == 0x90 && (0x90u8 | channel) & 0x0f == channel)
                by (bit_vector)
                requires
                    channel < 16,
            ;
            assert(key & 0x7f == key && velocity & 0x7f == velocity) by (bit_vector)
                requires
                    key < 128,
                    velocity < 128,
            ;
        },
        MidiEvent::NoteOff { key, velocity, channel } => {
            assert((0x80u8 | channel) & 0xf0 == 0x80 && (0x80u8 | channel) & 0x0f == channel)
                by (bit_vector)
                requires
                    channel < 16,
            ;
            assert(key & 0x7f == key && velocity & 0x7f == velocity) by (bit_vector)
                requires
                    key < 128,
                    velocity < 128,
            ;
        },
        MidiEvent::NotePressure { key, pressure, channel } => {
            assert((0xa0u8 | channel) & 0xf0 == 0xa0 && (0xa0u8 | channel) & 0x0f == channel)
                by (bit_vector)
                requires
                    channel < 16,
            ;
            assert(key & 0x7f == key && pressure & 0x7f == pressure) by (bit_vector)
                requires
                    key < 128,
                    pressure < 128,
            ;
        },
        MidiEvent::ControlChange { param, value, channel } => {
            assert((0xb0u8 | channel) & 0xf0 == 0xb0 && (0xb0u8 | channel) & 0x0f == channel)
                by (bit_vector)
                requires
                    channel < 16,
            ;
            assert(param & 0x7f == param && value & 0x7f == value) by (bit_vector)
                requires
                    param < 128,
                    value < 128,
            ;
        },
        MidiEvent::ProgramChange { program, channel } => {
            assert((0xc0u8 | channel) & 0xf0 == 0xc0 && (0xc0u8 | channel) & 0x0f == channel)
                by (bit_vector)
                requires
                    channel < 16,
            ;
            assert(program & 0x7f == program) by (bit_vector)
                requires
                    program < 128,
            ;
        },
        MidiEvent::ChannelPressure { pressure, channel } => {
            assert((0xd0u8 | channel) & 0xf0 == 0xd0 && (0xd0u8 | channel) & 0x0f == channel)
                by (bit_vector)
                requires
                    channel < 16,
            ;
            assert(pressure & 0x7f == pressure) by (bit_vector)
                requires
                    pressure < 128,
            ;
        },
        MidiEvent::PitchBend { value, channel } => {
            assert((0xe0u8 | channel) & 0xf0 == 0xe0 && (0xe0u8 | channel) & 0x0f == channel)
                by (bit_vector)
                requires
                    channel < 16,
            ;
            assert(((((value >> 7) & 0x7f) as u8) as u16) << 7 | (((value & 0x7f) as u8) as u16)
                == value) by (bit_vector)
                requires
                    value < 16384,
            ;
        },
    }
}

/// An event with the sample it happens at.
pub struct Timed<T> {
    pub time: u32,
    pub event: T,
}

/// Whether the events are in order of time.
pub open spec fn sorted_by_time<T>(s: Seq<Timed<T>>) -> bool {
    forall|i: int, j: int| 0 <= i <= j < s.len() ==> s[i].time <= s[j].time
}

/// The number of leading events at or before `time`.
pub open spec fn insert_position<T>(s: Seq<Timed<T>>, time: u32) -> nat
    decreases s.len(),
{
    if s.len() == 0 {
        0
    } else if s[0].time <= time {
        1 + insert_position(s.drop_first(), time)
    } else {
        0
    }
}

/// The events sorted by time with a stable sort: events at the same time keep their order.
pub open spec fn stable_sort_by_time<T>(s: Seq<Timed<T>>) -> Seq<Timed<T>>
    decreases s.len(),
{
    if s.len() == 0 {
        s
    } else {
        let sorted = stable_sort_by_time(s.drop_last());
        sorted.insert(insert_position(sorted, s.last().time) as int, s.last())
    }
}

proof fn lemma_insert_position<T>(s: Seq<Timed<T>>, time: u32)
    requires
        sorted_by_time(s),
    ensures
        insert_position(s, time) <= s.len(),
        forall|i: int| 0 <= i < insert_position(s, time) ==> #[trigger] s[i].time <= time,
        forall|i: int| insert_position(s, time) <= i < s.len() ==> #[trigger] s[i].time > time,
    decreases s.len(),
{
    if s.len() > 0 {
        let t = s.drop_first();
        assert(sorted_by_time(t)) by {
            assert forall|i: int, j: int| 0 <= i <= j < t.len() implies t[i].time <= t[j].time by {
                assert(t[i] == s[i + 1] && t[j] == s[j + 1]);
            }
        }
        lemma_insert_position(t, time);
        if s[0].time <= time {
            assert forall|i: int| 0 <= i < insert_position(s, time) implies #[trigger] s[i].time
                <= time by {
                if i > 0 {
                    assert(s[i] == t[i - 1]);
                }
            }
            assert forall|i: int| insert_position(s, time) <= i < s.len() implies #[trigger] s[i].time
                > time by {
                assert(s[i] == t[i - 1]);
            }
        } else {
            assert forall|i: int| 0 <= i < s.len() implies #[trigger] s[i].time > time by {
                assert(s[0].time <= s[i].time);
            }
        }
    }
}

proof fn lemma_insert_position_bound<T>(s: Seq<Timed<T>>, time: u32)
    ensures
        insert_position(s, time) <= s.len(),
    decreases s.len(),
{
    if s.len() > 0 {
        lemma_insert_position_bound(s.drop_first(), time);
    }
}

/// Sorting gives events in order of time.
pub proof fn lemma_stable_sort_sorted<T>(s: Seq<Timed<T>>)
    ensures
        sorted_by_time(stable_sort_by_time(s)),
        stable_sort_by_time(s).len() == s.len(),
    decreases s.len(),
{
    if s.len() > 0 {
        let sorted = stable_sort_by_time(s.drop_last());
        lemma_stable_sort_sorted(s.drop_last());
        let x = s.last();
        lemma_insert_position(sorted, x.time);
        let p = insert_position(sorted, x.time) as int;
        let r = sorted.insert(p, x);
        assert forall|i: int, j: int| 0 <= i <= j < r.len() implies r[i].time <= r[j].time by {
            if i < p && j < p {
                assert(r[i] == sorted[i] && r[j] == sorted[j]);
            } else if i < p && j == p {
                assert(r[i] == sorted[i]);
            } else if i < p {
                assert(r[i] == sorted[i] && r[j] == sorted[j - 1]);
            } else if i == p && j == p {
            } else if i == p {
                assert(r[j] == sorted[j - 1]);
            } else {
                assert(r[i] == sorted[i - 1] && r[j] == sorted[j - 1]);
            }
        }
    }
}

/// Sorting loses no event and adds none: the sorted events are a permutation of the queued ones.
pub proof fn lemma_stable_sort_permutes<T>(s: Seq<Timed<T>>)
    ensures
        stable_sort_by_time(s).to_multiset() =~= s.to_multiset(),
    decreases s.len(),
{
    if s.len() > 0 {
        let rest = s.drop_last();
        lemma_stable_sort_permutes(rest);
        let sorted = stable_sort_by_time(rest);
        lemma_insert_position_bound(sorted, s.last().time);
        vstd::seq_lib::to_multiset_insert(sorted, insert_position(sorted, s.last().time) as int, s.last());
        vstd::seq_lib::to_multiset_build(rest, s.last());
        assert(rest.push(s.last()) =~= s);
    }
}

/// Insert an event after every event at or before its time.
fn insert_by_time<T>(v: &mut Vec<Timed<T>>, x: Timed<T>)
    ensures
        final(v)@ == old(v)@.insert(insert_position(old(v)@, x.time) as int, x),
{
    let ghost s = v@;
    let mut k: usize = 0;
    assert(s.subrange(0, s.len() as int) =~= s);
    proof {
        lemma_insert_position_bound(s, x.time);
    }
    while k < v.len() && v[k].time <= x.time
        invariant
            v@ == s,
            k <= s.len(),
            insert_position(s, x.time) == k + insert_position(s.subrange(k as int, s.len() as int), x.time),
        decreases v.len() - k,
    {
        assert(s.subrange(k as int, s.len() as int).drop_first() =~= s.subrange(k + 1, s.len() as int));
        k = k + 1;
    }
    v.insert(k, x);
}

/// The events the host sends to the plugin in the next process call.
pub struct EventQueue<T> {
    events: Vec<Timed<T>>,
}

impl<T> EventQueue<T> {
    /// The queued events, in the order the plugin sees them.
    pub closed spec fn spec_events(&self) -> Seq<Timed<T>> {
        self.events@
    }

    /// An empty queue.
    pub fn new() -> (r: EventQueue<T>)
        ensures
            r.spec_events() == Seq::<Timed<T>>::empty(),
    {
        EventQueue { events: Vec::new() }
    }

    /// Remove all events.
    pub fn clear(&mut self)
        ensures
            final(self).spec_events() == Seq::<Timed<T>>::empty(),
    {
        self.events = Vec::new();
    }

    /// The time of the last queued event, if any.
    pub fn last_event_time(&self) -> (r: Option<u32>)
        ensures
            r == if self.spec_events().len() == 0 {
                None
            } else {
                Some(self.spec_events().last().time)
            },
    {
        if self.events.len() == 0 {
            None
        } else {
            Some(self.events[self.events.len() - 1].time)
        }
    }

    /// Append events. When the queue already held events, the whole queue is then sorted by time
    /// with a stable sort; events added to an empty queue keep their order.
    pub fn add_events(&mut self, extend: Vec<Timed<T>>)
        ensures
            old(self).spec_events().len() == 0 ==> final(self).spec_events() == extend@,
            old(self).spec_events().len() > 0 ==> final(self).spec_events() == stable_sort_by_time(
                old(self).spec_events() + extend@,
            ),
    {
        let was_empty = self.events.len() == 0;
        let mut all = Vec::new();
        std::mem::swap(&mut all, &mut self.events);
        let mut extend = extend;
        all.append(&mut extend);
        if was_empty {
            self.events = all;
            return ;
        }
        let ghost s = all@;
        let mut sorted: Vec<Timed<T>> = Vec::new();
        let mut rest = all;
        let n = rest.len();
        assert(s.subrange(0, 0) =~= Seq::<Timed<T>>::empty());
        while rest.len() > 0
            invariant
                n == s.len(),
                sorted@.len() + rest@.len() == n,
                rest@ == s.subrange(sorted@.len() as int, n as int),
                sorted@ == stable_sort_by_time(s.subrange(0, (n - rest@.len()) as int)),
            decreases rest.len(),
        {
            let k = n - rest.len();
            assert(rest@[0] == s[k as int]);
            let x = rest.remove(0);
            proof {
                assert(x == s[k as int]);
                let pre = s.subrange(0, k + 1);
                assert(pre.drop_last() =~= s.subrange(0, k as int));
                assert(pre.last() == s[k as int]);
                assert(rest@ =~= s.subrange(k + 1, n as int));
            }
            proof {
                lemma_insert_position_bound(sorted@, x.time);
            }
            insert_by_time(&mut sorted, x);
        }
        assert(s.subrange(0, n as int) =~= s);
        self.events = sorted;
    }

    /// Hand the queued events out.
    pub fn into_events(self) -> (r: Vec<Timed<T>>)
        ensures
            r@ == self.spec_events(),
    {
        self.events
    }
}

/// The header fields of an output event that the host checks.
#[derive(Clone, Copy, PartialEq, Eq, Structural, Debug)]
pub struct OutputEventHeader {
    pub time: u32,
    pub space_id: u16,
    pub type_id: u16,
}

/// What is wrong with the events a plugin output during a process call.
#[derive(Clone, Copy, PartialEq, Eq, Structural, Debug)]
pub enum OutputEventError {
    /// An event at `time` after one at the later `previous` time.
    OutOfOrder { time: u32, previous: u32 },
    /// An event at or past the end of the block.
    PastBlock { time: u32, block_size: u32 },
    /// A transport event.
    Transport,
}

/// The first problem among the output events from position `i` on, when the last event before
/// them was at `last`.
pub open spec fn output_events_error_from(events: Seq<OutputEventHeader>, i: int, last: u32, block_size: u32) -> Option<OutputEventError>
    decreases events.len() - i,
{
    if i < 0 || i >= events.len() {
        None
    } else {
        let e = events[i];
        if e.time < last {
            Some(OutputEventError::OutOfOrder { time: e.time, previous: last })
        } else if e.time >= block_size {
            Some(OutputEventError::PastBlock { time: e.time, block_size })
        } else if spec_event_kind(e.space_id, e.type_id) == EventKind::Transport {
            Some(OutputEventError::Transport)
        } else {
            output_events_error_from(events, i + 1, e.time, block_size)
        }
    }
}

/// Check the events a plugin output during a process call: in order of time, inside the block,
/// and no transport events.
pub fn check_output_events(events: &Vec<OutputEventHeader>, block_size: u32) -> (r: Result<(), OutputEventError>)
    ensures
        match r {
            Ok(_) => output_events_error_from(events@, 0, 0, block_size) is None,
            Err(e) => output_events_error_from(events@, 0, 0, block_size) == Some(e),
        },
{
    let mut last: u32 = 0;
    let mut i: usize = 0;
    while i < events.len()
        invariant
            i <= events@.len(),
            output_events_error_from(events@, 0, 0, block_size) == output_events_error_from(
                events@,
                i as int,
                last,
                block_size,
            ),
        decreases events.len() - i,
    {
        let e = events[i];
        if e.time < last {
            return Err(OutputEventError::OutOfOrder { time: e.time, previous: last });
        }
        if e.time >= block_size {
            return Err(OutputEventError::PastBlock { time: e.time, block_size });
        }
        if event_kind(e.space_id, e.type_id) == EventKind::Transport {
            return Err(OutputEventError::Transport);
        }
        last = e.time;
        i = i + 1;
    }
    Ok(())
}

/// A single event that is inside the block is refused exactly when it is a transport event,
/// that is a core event of type 9; parameter gestures and every other event pass.
pub proof fn lemma_output_event_transport_only(e: OutputEventHeader, block_size: u32)
    requires
        e.time < block_size,
    ensures
        output_events_error_from(seq![e], 0, 0, block_size) is Some <==> (e.space_id == 0
            && e.type_id == 9),
        output_events_error_from(seq![e], 0, 0, block_size) is Some ==> output_events_error_from(
            seq![e],
            0,
            0,
            block_size,
        ) == Some(OutputEventError::Transport),
{
    lemma_core_event_kinds(e.space_id, e.type_id);
    assert(output_events_error_from(seq![e], 1, e.time, block_size) is None);
}

} // verus!
