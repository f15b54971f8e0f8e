use clap_validator::duration::{parse_duration, parse_duration_checked};
use clap_validator::events::{
    check_output_events, event_kind, EventKind, EventQueue, MidiEvent, OutputEventError,
    OutputEventHeader, Timed,
};

fn timed(time: u32, event: u32) -> Timed<u32> {
    Timed { time, event }
}

fn pairs(events: Vec<Timed<u32>>) -> Vec<(u32, u32)> {
    events.into_iter().map(|e| (e.time, e.event)).collect()
}

#[test]
fn test_event_kinds() {
    assert_eq!(event_kind(0, 0), EventKind::Note);
    assert_eq!(event_kind(0, 3), EventKind::Note);
    assert_eq!(event_kind(0, 4), EventKind::NoteExpression);
    assert_eq!(event_kind(0, 5), EventKind::ParamValue);
    assert_eq!(event_kind(0, 6), EventKind::ParamMod);
    assert_eq!(event_kind(0, 8), EventKind::ParamGesture);
    assert_eq!(event_kind(0, 9), EventKind::Transport);
    assert_eq!(event_kind(0, 10), EventKind::Midi);
    assert_eq!(event_kind(0, 11), EventKind::Sysex);
    assert_eq!(event_kind(0, 12), EventKind::Midi2);
    assert_eq!(event_kind(0, 13), EventKind::Unknown);
    assert_eq!(event_kind(1, 0), EventKind::Unknown);
}

#[test]
fn test_midi_encoding() {
    let on = MidiEvent::NoteOn { key: 60, velocity: 100, channel: 2 };
    assert_eq!(on.into_bytes(), [0x92, 60, 100]);
    assert_eq!(MidiEvent::parse([0x92, 60, 100]), Some(on));
    let bend = MidiEvent::PitchBend { value: 8192, channel: 0 };
    assert_eq!(bend.into_bytes(), [0xe0, 0x00, 0x40]);
    assert_eq!(MidiEvent::parse([0xe0, 0x00, 0x40]), Some(bend));
    assert_eq!(
        MidiEvent::ProgramChange { program: 5, channel: 15 }.into_bytes(),
        [0xcf, 5, 0]
    );
    assert_eq!(MidiEvent::parse([0xf0, 1, 2]), None);
}

#[test]
fn test_midi_roundtrip_note_on_zero_velocity() {
    let on = MidiEvent::NoteOn { key: 64, velocity: 0, channel: 1 };
    assert_eq!(
        MidiEvent::parse(on.into_bytes()),
        Some(MidiEvent::NoteOff { key: 64, velocity: 0, channel: 1 })
    );
    for e in [
        MidiEvent::NoteOff { key: 1, velocity: 2, channel: 3 },
        MidiEvent::NotePressure { key: 1, pressure: 2, channel: 3 },
        MidiEvent::ControlChange { param: 7, value: 127, channel: 9 },
        MidiEvent::ChannelPressure { pressure: 5, channel: 4 },
        MidiEvent::PitchBend { value: 16383, channel: 15 },
    ] {
        assert_eq!(MidiEvent::parse(e.into_bytes()), Some(e));
    }
}

#[test]
fn test_event_queue_first_batch_keeps_order() {
    let mut queue: EventQueue<u32> = EventQueue::new();
    assert_eq!(queue.last_event_time(), None);
    queue.add_events(vec![timed(5, 1), timed(2, 2)]);
    assert_eq!(queue.last_event_time(), Some(2));
    assert_eq!(pairs(queue.into_events()), vec![(5, 1), (2, 2)]);
}

#[test]
fn test_event_queue_later_batches_sorted_stably() {
    let mut queue: EventQueue<u32> = EventQueue::new();
    queue.add_events(vec![timed(3, 1), timed(1, 2)]);
    queue.add_events(vec![timed(1, 3), timed(0, 4), timed(3, 5)]);
    assert_eq!(
        pairs(queue.into_events()),
        vec![(0, 4), (1, 2), (1, 3), (3, 1), (3, 5)]
    );
}

#[test]
fn test_event_queue_clear() {
    let mut queue: EventQueue<u32> = EventQueue::new();
    queue.add_events(vec![timed(3, 1)]);
    queue.clear();
    assert_eq!(queue.last_event_time(), None);
    assert!(queue.into_events().is_empty());
}

#[test]
fn test_output_event_checks() {
    let ev = |time: u32, type_id: u16| OutputEventHeader { time, space_id: 0, type_id };
    assert_eq!(check_output_events(&vec![ev(0, 0), ev(0, 1), ev(3, 5)], 4), Ok(()));
    assert_eq!(
        check_output_events(&vec![ev(2, 0), ev(1, 0)], 4),
        Err(OutputEventError::OutOfOrder { time: 1, previous: 2 })
    );
    assert_eq!(
        check_output_events(&vec![ev(4, 0)], 4),
        Err(OutputEventError::PastBlock { time: 4, block_size: 4 })
    );
    assert_eq!(check_output_events(&vec![ev(1, 9)], 4), Err(OutputEventError::Transport));
}

#[test]
fn test_parse_duration_units() {
    assert_eq!(parse_duration("10m30s"), Ok(630_000));
    assert_eq!(parse_duration("1h"), Ok(3_600_000));
    assert_eq!(parse_duration("250ms"), Ok(250));
    assert_eq!(parse_duration("1h1m1s1ms"), Ok(3_661_001));
    assert_eq!(parse_duration("2hours5min"), Ok(7_500_000));
    assert_eq!(parse_duration("3sec"), Ok(3_000));
    assert_eq!(parse_duration("1millis2seconds"), Ok(2_001));
}

#[test]
fn test_parse_duration_errors() {
    assert_eq!(parse_duration(""), Err("no duration provided"));
    assert_eq!(parse_duration("10"), Err("invalid duration format"));
    assert_eq!(parse_duration("10x"), Err("invalid duration format"));
    assert_eq!(parse_duration("m"), Err("invalid duration format"));
    assert_eq!(parse_duration_checked("5s"), Some(Ok(5_000)));
    assert_eq!(parse_duration_checked(""), Some(Err("no duration provided")));
}

#[test]
fn test_duration_concatenation_adds() {
    let a = parse_duration("10m");
    let b = parse_duration("30s250ms");
    assert_eq!(a, Ok(600_000));
    assert_eq!(b, Ok(30_250));
    assert_eq!(parse_duration("10m30s250ms"), Ok(630_250));
}
