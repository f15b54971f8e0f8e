use clap_validator::ports::{
    check_audio_port_config, check_audio_port_flags, check_audio_port_type_consistent,
    check_note_port_valid, count_ones_exec, is_perfect_square, port_type, surround_channel_mask,
    AmbisonicAnswer, AudioConfigError, AudioPort, AudioPortError, NotePortConfig,
    NotePortConfigError, NotePortError, PortType, RawAudioPortInfo, RawNotePortInfo,
    SurroundAnswer, CLAP_INVALID_ID,
};

fn note(id: u32, supported: u32, preferred: u32) -> RawNotePortInfo {
    RawNotePortInfo { id, supported_dialects: supported, preferred_dialect: preferred }
}

fn audio(id: u32, flags: u32) -> RawAudioPortInfo {
    RawAudioPortInfo { id, flags, channel_count: 2, port_type: Some(b"stereo".to_vec()), in_place_pair: CLAP_INVALID_ID }
}

#[test]
fn test_count_ones() {
    assert_eq!(count_ones_exec(0), 0);
    assert_eq!(count_ones_exec(0b1011), 3);
    assert_eq!(count_ones_exec(u32::MAX), 32);
}

#[test]
fn test_note_port_validity() {
    let port = check_note_port_valid(note(1, 1 | 2 | 4, 1)).ok().unwrap();
    assert_eq!(port.supported_dialects, vec![1, 2, 4]);
    assert!(port.supports_clap());
    assert!(port.supports_midi());
    let midi_only = check_note_port_valid(note(1, 4, 4)).ok().unwrap();
    assert!(!midi_only.supports_clap());
    assert!(midi_only.supports_midi());
    assert!(matches!(check_note_port_valid(note(CLAP_INVALID_ID, 1, 1)), Err(NotePortError::InvalidId)));
    assert!(matches!(check_note_port_valid(note(1, 3, 3)), Err(NotePortError::PreferredNotSingle(2))));
    assert!(matches!(check_note_port_valid(note(1, 3, 0)), Err(NotePortError::PreferredNotSingle(0))));
    assert!(matches!(check_note_port_valid(note(1, 1, 2)), Err(NotePortError::PreferredNotSupported)));
}

#[test]
fn test_note_port_config() {
    let config = NotePortConfig::from_ports(&vec![Some(note(1, 1, 1)), Some(note(2, 2, 2))], &vec![]).ok().unwrap();
    assert_eq!(config.inputs.len(), 2);
    assert!(config.outputs.is_empty());
    assert!(matches!(
        NotePortConfig::from_ports(&vec![Some(note(1, 1, 1)), Some(note(1, 1, 1))], &vec![]),
        Err(NotePortConfigError::DuplicateId { is_input: true, index: 1, id: 1 })
    ));
    assert!(matches!(
        NotePortConfig::from_ports(&vec![], &vec![Some(note(1, 1, 1)), None]),
        Err(NotePortConfigError::QueryFailed { is_input: false, index: 1 })
    ));
    assert!(matches!(
        NotePortConfig::from_ports(&vec![Some(note(1, 1, 2))], &vec![]),
        Err(NotePortConfigError::Invalid { is_input: true, index: 0, error: NotePortError::PreferredNotSupported })
    ));
}

#[test]
fn test_audio_port_flags() {
    assert_eq!(check_audio_port_flags(0, &audio(1, 1 | 2 | 4)), Ok(()));
    assert_eq!(check_audio_port_flags(0, &audio(CLAP_INVALID_ID, 0)), Err(AudioPortError::InvalidId));
    assert_eq!(check_audio_port_flags(1, &audio(1, 1)), Err(AudioPortError::MainNotFirst));
    assert_eq!(check_audio_port_flags(0, &audio(1, 4)), Err(AudioPortError::PrefersUnsupported64Bit));
}

#[test]
fn test_port_types() {
    assert_eq!(port_type(&b"mono".to_vec()), PortType::Mono);
    assert_eq!(port_type(&b"stereo".to_vec()), PortType::Stereo);
    assert_eq!(port_type(&b"surround".to_vec()), PortType::Surround);
    assert_eq!(port_type(&b"ambisonic".to_vec()), PortType::Ambisonic);
    assert_eq!(port_type(&b"quad".to_vec()), PortType::Other);
    assert_eq!(port_type(&b"".to_vec()), PortType::Other);
}

#[test]
fn test_perfect_squares_and_masks() {
    assert!(is_perfect_square(0));
    assert!(is_perfect_square(1));
    assert!(is_perfect_square(4));
    assert!(is_perfect_square(16));
    assert!(!is_perfect_square(2));
    assert!(!is_perfect_square(15));
    assert!(is_perfect_square(65536));
    assert_eq!(surround_channel_mask(&vec![0, 1, 5]), 0b100011);
    assert_eq!(surround_channel_mask(&vec![]), 0);
    assert_eq!(surround_channel_mask(&vec![63, 63]), 1u64 << 63);
}

#[test]
fn test_port_type_consistency() {
    let none = SurroundAnswer::Missing;
    let no_ambi = AmbisonicAnswer::Missing;
    assert_eq!(check_audio_port_type_consistent(Some(PortType::Mono), 1, none, no_ambi), Ok(()));
    assert_eq!(
        check_audio_port_type_consistent(Some(PortType::Mono), 2, none, no_ambi),
        Err(AudioPortError::MonoChannelCount(2))
    );
    assert_eq!(
        check_audio_port_type_consistent(Some(PortType::Stereo), 1, none, no_ambi),
        Err(AudioPortError::StereoChannelCount(1))
    );
    assert_eq!(
        check_audio_port_type_consistent(Some(PortType::Surround), 6, none, no_ambi),
        Err(AudioPortError::NoSurroundExtension)
    );
    let surround = SurroundAnswer::Present { map_len: 5, mask: 0b11111, mask_supported: true };
    assert_eq!(
        check_audio_port_type_consistent(Some(PortType::Surround), 6, surround, no_ambi),
        Err(AudioPortError::SurroundMapLength { map_len: 5, channel_count: 6 })
    );
    let unsupported = SurroundAnswer::Present { map_len: 6, mask: 0b111111, mask_supported: false };
    assert_eq!(
        check_audio_port_type_consistent(Some(PortType::Surround), 6, unsupported, no_ambi),
        Err(AudioPortError::SurroundMaskUnsupported(0b111111))
    );
    assert_eq!(
        check_audio_port_type_consistent(Some(PortType::Ambisonic), 4, none, no_ambi),
        Err(AudioPortError::NoAmbisonicExtension)
    );
    let ok = AmbisonicAnswer::Present { supported: true };
    assert_eq!(
        check_audio_port_type_consistent(Some(PortType::Ambisonic), 5, none, ok),
        Err(AudioPortError::NotPerfectSquare(5))
    );
    assert_eq!(check_audio_port_type_consistent(Some(PortType::Ambisonic), 9, none, ok), Ok(()));
    assert_eq!(
        check_audio_port_type_consistent(Some(PortType::Ambisonic), 9, none, AmbisonicAnswer::ConfigFailed),
        Err(AudioPortError::AmbisonicConfigFailed)
    );
    assert_eq!(check_audio_port_type_consistent(Some(PortType::Other), 3, none, no_ambi), Ok(()));
    assert_eq!(check_audio_port_type_consistent(None, 3, none, no_ambi), Ok(()));
}

#[test]
fn test_audio_port_from_info() {
    let mut info = audio(7, 1 | 2 | 8);
    info.in_place_pair = 3;
    let port = AudioPort::from_info(info);
    assert_eq!(port.id, 7);
    assert!(port.is_main);
    assert!(port.supports_double_sample_size);
    assert!(!port.prefers_double_sample_size);
    assert!(port.requires_common_sample_size);
    assert_eq!(port.in_place_pair, Some(3));
    assert_eq!(AudioPort::from_info(audio(1, 0)).in_place_pair, None);
}

#[test]
fn test_audio_port_config() {
    let a = AudioPort::from_info(audio(1, 8));
    let b = AudioPort::from_info(audio(2, 8 | 2));
    assert_eq!(check_audio_port_config(&vec![a], &vec![b]), Err(AudioConfigError::MixedCommonSampleSize));
    let a = AudioPort::from_info(audio(1, 0));
    let b = AudioPort::from_info(audio(1, 0));
    assert_eq!(
        check_audio_port_config(&vec![a, b], &vec![]),
        Err(AudioConfigError::DuplicateId { is_input: true, index: 1, id: 1 })
    );
    let a = AudioPort::from_info(audio(1, 0));
    let b = AudioPort::from_info(audio(1, 0));
    assert_eq!(check_audio_port_config(&vec![a], &vec![b]), Ok(()));
}
