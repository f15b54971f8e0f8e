use clap_validator::buffer::{
    check_input_untouched, check_output_untouched, check_process_call_consistency, port_slots,
    resolve_in_place_pairs, sample_eq, sample_is_finite, sample_is_subnormal, AudioBufferPort,
    BufferSnapshot, BufferTamper, ClapBufferHeader, ConsistencyError, InPlaceError, SampleBits,
    CHECK_NAN_F32_BITS,
};
use clap_validator::events::{OutputEventError, OutputEventHeader};
use clap_validator::ports::AudioPort;
use clap_validator::transport::{
    advance_sample_pos, transport_flags, ConstantMask, TransportPresence,
};

fn f32s(values: &[f32]) -> Vec<SampleBits> {
    values.iter().map(|v| SampleBits::F32(v.to_bits())).collect()
}

fn snapshot(port: AudioBufferPort, channels: Vec<Vec<SampleBits>>) -> BufferSnapshot {
    let quiet = vec![true; channels.len()];
    BufferSnapshot {
        port,
        output_constant_mask: ConstantMask::dynamic(),
        channels,
        channel_quiet: quiet,
    }
}

fn port(id: u32, pair: Option<u32>, channels: u32) -> AudioPort {
    AudioPort {
        id,
        is_main: false,
        port_type: Some(b"stereo".to_vec()),
        channel_count: channels,
        in_place_pair: pair,
        supports_double_sample_size: false,
        prefers_double_sample_size: false,
        requires_common_sample_size: false,
    }
}

#[test]
fn test_buffer_port_directions() {
    assert_eq!(AudioBufferPort::Input(2).input(), Some(2));
    assert_eq!(AudioBufferPort::Input(2).output(), None);
    assert_eq!(AudioBufferPort::Output(1).output(), Some(1));
    assert_eq!(AudioBufferPort::Inplace(3, 4).input(), Some(3));
    assert_eq!(AudioBufferPort::Inplace(3, 4).output(), Some(4));
}

#[test]
fn test_sample_classification() {
    assert!(sample_is_finite(SampleBits::F32(1.5f32.to_bits())));
    assert!(!sample_is_finite(SampleBits::F32(f32::INFINITY.to_bits())));
    assert!(!sample_is_finite(SampleBits::F64(f64::NAN.to_bits())));
    assert!(sample_is_subnormal(SampleBits::F32(1.0e-40f32.to_bits())));
    assert!(sample_is_subnormal(SampleBits::F64(1.0e-310f64.to_bits())));
    assert!(!sample_is_subnormal(SampleBits::F32(0.0f32.to_bits())));
    assert!(sample_eq(SampleBits::F32(0.0f32.to_bits()), SampleBits::F32((-0.0f32).to_bits())));
    assert!(!sample_eq(SampleBits::F32(f32::NAN.to_bits()), SampleBits::F32(f32::NAN.to_bits())));
    assert!(!sample_eq(SampleBits::F32(1.0f32.to_bits()), SampleBits::F64(1.0f64.to_bits())));
    assert!(sample_eq(SampleBits::F64(0.25f64.to_bits()), SampleBits::F64(0.25f64.to_bits())));
}

#[test]
fn test_consistency_ok() {
    let before = vec![
        snapshot(AudioBufferPort::Input(0), vec![f32s(&[0.1, 0.2, 0.3, 0.4])]),
        snapshot(AudioBufferPort::Output(0), vec![f32s(&[9.0; 4])]),
    ];
    let after = vec![
        snapshot(AudioBufferPort::Input(0), vec![f32s(&[0.1, 0.2, 0.3, 0.4])]),
        snapshot(AudioBufferPort::Output(0), vec![f32s(&[0.5, 0.5, 9.0, 9.0])]),
    ];
    let events = vec![OutputEventHeader { time: 0, space_id: 0, type_id: 0 }];
    assert!(check_process_call_consistency(&after, &before, &events, 2, 4, true, &vec![true]).is_ok());
}

#[test]
fn test_consistency_input_overwritten() {
    let before = vec![snapshot(AudioBufferPort::Input(1), vec![f32s(&[0.1, 0.2]), f32s(&[0.3, 0.4])])];
    let after = vec![snapshot(AudioBufferPort::Input(1), vec![f32s(&[0.1, 0.2]), f32s(&[0.3, 0.5])])];
    assert_eq!(
        check_process_call_consistency(&after, &before, &vec![], 2, 2, true, &vec![]),
        Err(ConsistencyError::InputOverwritten { index: 1, channel: 1, sample: 1 })
    );
}

#[test]
fn test_consistency_invalid_outputs() {
    let nan_bits = CHECK_NAN_F32_BITS;
    let before = vec![snapshot(AudioBufferPort::Output(0), vec![vec![SampleBits::F32(nan_bits); 3]])];

    let unwritten = vec![snapshot(
        AudioBufferPort::Output(0),
        vec![vec![SampleBits::F32(0), SampleBits::F32(nan_bits), SampleBits::F32(nan_bits)]],
    )];
    assert_eq!(
        check_process_call_consistency(&unwritten, &before, &vec![], 2, 3, true, &vec![true]),
        Err(ConsistencyError::UnwrittenOutput { port: 0, channel: 0, sample: 1 })
    );

    let subnormal = SampleBits::F32(1.0e-40f32.to_bits());
    let with_denormal = vec![snapshot(
        AudioBufferPort::Output(0),
        vec![vec![subnormal, SampleBits::F32(0), SampleBits::F32(nan_bits)]],
    )];
    assert_eq!(
        check_process_call_consistency(&with_denormal, &before, &vec![], 2, 3, true, &vec![true]),
        Err(ConsistencyError::SubnormalOutput { port: 0, channel: 0, sample: 0, value: subnormal })
    );
    assert!(check_process_call_consistency(&with_denormal, &before, &vec![], 2, 3, false, &vec![true]).is_ok());

    let inf = SampleBits::F32(f32::INFINITY.to_bits());
    let infinite = vec![snapshot(AudioBufferPort::Output(0), vec![vec![SampleBits::F32(0), inf, SampleBits::F32(nan_bits)]])];
    assert_eq!(
        check_process_call_consistency(&infinite, &before, &vec![], 2, 3, true, &vec![true]),
        Err(ConsistencyError::NonFiniteOutput { port: 0, channel: 0, sample: 1, value: inf })
    );
    // An inactive output is not checked.
    assert!(check_process_call_consistency(&infinite, &before, &vec![], 2, 3, true, &vec![false]).is_ok());
}

#[test]
fn test_consistency_beyond_block_and_constant() {
    let nan = SampleBits::F32(CHECK_NAN_F32_BITS);
    let before = vec![snapshot(AudioBufferPort::Output(0), vec![vec![nan; 3]])];
    let after = vec![snapshot(
        AudioBufferPort::Output(0),
        vec![vec![SampleBits::F32(0), SampleBits::F32(0), SampleBits::F32(0)]],
    )];
    assert_eq!(
        check_process_call_consistency(&after, &before, &vec![], 2, 3, true, &vec![true]),
        Err(ConsistencyError::OverwrittenBeyondBlock { channel: 0, sample: 2, block_size: 2 })
    );

    let mut loud = snapshot(AudioBufferPort::Output(0), vec![vec![SampleBits::F32(0), SampleBits::F32(0), nan]]);
    loud.output_constant_mask = ConstantMask::dynamic().with_channel_constant(0);
    loud.channel_quiet = vec![false];
    assert_eq!(
        check_process_call_consistency(&vec![loud], &before, &vec![], 2, 3, true, &vec![true]),
        Err(ConsistencyError::OutputNotConstant { port: 0, channel: 0 })
    );
}

#[test]
fn test_consistency_events() {
    let events = vec![
        OutputEventHeader { time: 1, space_id: 0, type_id: 0 },
        OutputEventHeader { time: 0, space_id: 0, type_id: 0 },
    ];
    assert_eq!(
        check_process_call_consistency(&vec![], &vec![], &events, 4, 4, true, &vec![]),
        Err(ConsistencyError::Event(OutputEventError::OutOfOrder { time: 0, previous: 1 }))
    );
}

#[test]
fn test_resolve_in_place_pairs() {
    let inputs = vec![port(1, Some(2), 2), port(3, None, 1)];
    let outputs = vec![port(2, Some(1), 2), port(4, None, 1)];
    assert_eq!(
        resolve_in_place_pairs(&inputs, &outputs).unwrap(),
        vec![AudioBufferPort::Input(1), AudioBufferPort::Output(1), AudioBufferPort::Inplace(0, 0)]
    );
}

#[test]
fn test_resolve_in_place_pairs_errors() {
    let inputs = vec![port(1, Some(2), 2)];
    assert_eq!(
        resolve_in_place_pairs(&inputs, &vec![]),
        Err(InPlaceError::MissingOutput { input: 0, output_id: 2 })
    );
    let outputs = vec![port(2, Some(7), 2)];
    assert_eq!(
        resolve_in_place_pairs(&vec![], &outputs),
        Err(InPlaceError::MissingInput { output: 0, input_id: 7 })
    );
    let outputs = vec![port(2, Some(1), 1)];
    assert_eq!(
        resolve_in_place_pairs(&inputs, &outputs),
        Err(InPlaceError::LayoutMismatch { input: 0, output: 0 })
    );
}

#[test]
fn test_buffer_layout_and_slots() {
    let mut inputs = vec![port(1, None, 2)];
    inputs[0].supports_double_sample_size = true;
    let outputs = vec![port(2, None, 6)];
    assert_eq!(AudioBufferPort::Input(0).buffer_layout(&inputs, &outputs, true), (2, true));
    assert_eq!(AudioBufferPort::Output(0).buffer_layout(&inputs, &outputs, true), (6, false));
    assert_eq!(AudioBufferPort::Inplace(0, 0).buffer_layout(&inputs, &outputs, true), (2, false));
    let ports = vec![AudioBufferPort::Input(0), AudioBufferPort::Inplace(2, 1), AudioBufferPort::Output(0)];
    assert_eq!(port_slots(&ports), (3, 2));
}

#[test]
fn test_buffer_header_checks() {
    let header = ClapBufferHeader { data32: 100, data64: 0, channel_count: 2, latency: 0, constant_mask: 0 };
    let ptrs = vec![1000, 2000];
    assert_eq!(check_input_untouched(0, header, header, &ptrs, &ptrs), Ok(()));
    let changed = ClapBufferHeader { constant_mask: 1, ..header };
    assert_eq!(check_input_untouched(0, header, changed, &ptrs, &ptrs), Err(BufferTamper::InputData(0)));
    assert_eq!(
        check_input_untouched(3, header, header, &ptrs, &vec![1000, 2004]),
        Err(BufferTamper::InputChannelPointers(3))
    );
    let reported = ClapBufferHeader { constant_mask: 3, latency: 12, ..header };
    assert_eq!(
        check_output_untouched(0, header, reported, &ptrs, &ptrs),
        Ok((ConstantMask(3), 12))
    );
    let moved = ClapBufferHeader { data32: 104, ..header };
    assert_eq!(check_output_untouched(1, header, moved, &ptrs, &ptrs), Err(BufferTamper::OutputData(1)));
}

#[test]
fn test_constant_mask() {
    let mask = ConstantMask::dynamic().with_channel_constant(1).with_channel_constant(3);
    assert_eq!(mask, ConstantMask(0b1010));
    assert!(mask.is_channel_constant(1));
    assert!(!mask.is_channel_constant(0));
    assert!(!mask.is_channel_constant(70));
    assert_eq!(ConstantMask::dynamic().with_channel_constant(64), ConstantMask(0));
    assert!(ConstantMask(0b0111).are_all_channels_constant(3));
    assert!(!ConstantMask(0b0101).are_all_channels_constant(3));
    assert!(ConstantMask::constant().are_all_channels_constant(64));
    assert!(ConstantMask::constant().are_all_channels_constant(100));
    assert!(ConstantMask::dynamic().are_all_channels_constant(0));
}

#[test]
fn test_transport_flags_and_position() {
    let none = TransportPresence {
        is_playing: false,
        is_recording: false,
        is_within_preroll: false,
        has_beats_timeline: false,
        has_seconds_timeline: false,
        has_tempo: false,
        has_time_signature: false,
    };
    assert_eq!(transport_flags(none), 0);
    let dummy = TransportPresence {
        has_beats_timeline: true,
        has_seconds_timeline: true,
        has_tempo: true,
        has_time_signature: true,
        ..none
    };
    assert_eq!(transport_flags(dummy), 1 | 2 | 4 | 8);
    let playing = TransportPresence { is_playing: true, is_recording: true, is_within_preroll: true, ..none };
    assert_eq!(transport_flags(playing), 16 | 32 | 128);

    assert_eq!(advance_sample_pos(Some(10), 5), Some(15));
    assert_eq!(advance_sample_pos(Some(10), -20), Some(0));
    assert_eq!(advance_sample_pos(Some(u64::MAX - 1), 5), Some(u64::MAX));
    assert_eq!(advance_sample_pos(Some(5), i64::MIN), Some(0));
    assert_eq!(advance_sample_pos(None, 5), None);
}

#[test]
fn test_resolve_without_pairs_is_out_of_place() {
    let inputs = vec![port(1, None, 2), port(2, None, 1)];
    let outputs = vec![port(3, None, 2)];
    assert_eq!(
        resolve_in_place_pairs(&inputs, &outputs).unwrap(),
        vec![AudioBufferPort::Input(0), AudioBufferPort::Input(1), AudioBufferPort::Output(0)]
    );
}
