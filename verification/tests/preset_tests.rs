use clap_validator::preset::{
    parse_timestamp, Flags, LocationError, LocationValue, PartialPreset, PluginAbi, PresetName,
};
use clap_validator::receiver::{
    Argument, MetadataReceiver, PresetFile, ReceiverCallback, ReceiverFault, TimestampKind,
};
use clap_validator::text::{RawText, TextError};

fn text(s: &str) -> RawText {
    RawText::Text(s.to_string())
}

fn no_flags() -> Flags {
    Flags::from_raw(0)
}

fn file_receiver() -> MetadataReceiver {
    MetadataReceiver::new(LocationValue::File("/presets/Warm Pad.preset".to_string()), no_flags())
}

#[test]
fn test_flags_from_raw() {
    let f = Flags::from_raw(1 | 8 | 64);
    assert!(f.is_factory_content);
    assert!(!f.is_user_content);
    assert!(!f.is_demo_content);
    assert!(f.is_favorite);
    assert_eq!(Flags::from_raw(2 | 4), Flags {
        is_factory_content: false,
        is_user_content: true,
        is_demo_content: true,
        is_favorite: false
    });
}

#[test]
fn test_parse_timestamp() {
    assert_eq!(parse_timestamp(0), Ok(None));
    let t = parse_timestamp(1_700_000_000).unwrap().unwrap();
    assert_eq!(t.unix_timestamp(), 1_700_000_000);
    assert_eq!(t.year(), 2023);
    assert_eq!(t.day(), 14);
    let last = parse_timestamp(253_402_300_799).unwrap().unwrap();
    assert_eq!(last.year(), 9999);
    assert_eq!(parse_timestamp(253_402_300_800), Err(()));
}

#[test]
fn test_location_new() {
    assert!(matches!(LocationValue::new(0, text("/a/b.preset")), Ok(LocationValue::File(p)) if p == "/a/b.preset"));
    assert!(matches!(LocationValue::new(0, text("rel/path")), Err(LocationError::NotAbsolute(p)) if p == "rel/path"));
    assert!(matches!(LocationValue::new(0, RawText::Null), Err(LocationError::NullFileLocation)));
    assert!(matches!(LocationValue::new(0, RawText::InvalidUtf8), Err(LocationError::InvalidFileLocation)));
    assert!(matches!(LocationValue::new(1, RawText::Null), Ok(LocationValue::Internal)));
    assert!(matches!(LocationValue::new(1, text("/x")), Err(LocationError::NonNullPluginLocation)));
    assert!(matches!(LocationValue::new(7, RawText::Null), Err(LocationError::UnknownKind(7))));
}

#[test]
fn test_location_file_name() {
    assert_eq!(LocationValue::Internal.file_name(), Some("<plugin>".to_string()));
    assert_eq!(
        LocationValue::File("/presets/Warm Pad.preset".to_string()).file_name(),
        Some("Warm Pad.preset".to_string())
    );
    assert_eq!(LocationValue::File("/".to_string()).file_name(), None);
    assert_eq!(LocationValue::File("/presets/..".to_string()).file_name(), None);
}

#[test]
fn test_partial_preset_finalize() {
    let partial = PartialPreset::new(PresetName::Explicit("Lead".to_string()));
    assert!(matches!(partial.finalize(no_flags()), Err(PresetName::Explicit(n)) if n == "Lead"));
}

#[test]
fn test_receiver_single_preset() {
    let mut r = file_receiver();
    assert!(r.begin_preset(true, RawText::Null, RawText::Null));
    r.add_plugin_id(true, text("clap"), text("com.example.synth"));
    r.set_flags(true, 8);
    r.add_creator(true, text("Someone"));
    r.set_description(true, text("A warm pad"));
    r.add_feature(true, text("pad"));
    r.add_extra_info(true, text("k"), text("v1"));
    r.add_extra_info(true, text("k"), text("v2"));
    r.set_timestamps(true, 1_000, 0);
    assert!(r.can_finish());
    match r.finish() {
        Ok(Some(PresetFile::Single(p))) => {
            assert!(matches!(&p.name, PresetName::Filename(n) if n == "Warm Pad.preset"));
            assert_eq!(p.plugin_ids.len(), 1);
            assert!(matches!(p.plugin_ids[0].abi, PluginAbi::Clap));
            assert_eq!(p.plugin_ids[0].id, "com.example.synth");
            assert!(p.flags.flags.is_favorite);
            assert!(!p.flags.is_inherited);
            assert_eq!(p.creators, vec!["Someone".to_string()]);
            assert_eq!(p.description, Some("A warm pad".to_string()));
            assert_eq!(p.features, vec!["pad".to_string()]);
            assert_eq!(p.extra_info.len(), 1);
            assert_eq!(p.extra_info.get("k"), Some(&"v2".to_string()));
            assert!(p.creation_time.is_some());
            assert!(p.modification_time.is_none());
        }
        _ => panic!("expected a single preset"),
    }
}

#[test]
fn test_receiver_container() {
    let mut r = file_receiver();
    assert!(r.begin_preset(true, text("One"), text("key1")));
    r.add_plugin_id(true, text("clap"), text("id"));
    assert!(r.begin_preset(true, text("Two"), text("key2")));
    r.add_plugin_id(true, text("vst3"), text("other"));
    match r.finish() {
        Ok(Some(PresetFile::Container(c))) => {
            assert_eq!(c.len(), 2);
            let one = c.get("key1").unwrap();
            assert!(matches!(&one.name, PresetName::Explicit(n) if n == "One"));
            assert!(one.flags.is_inherited);
            let two = c.get("key2").unwrap();
            assert!(matches!(&two.plugin_ids[0].abi, PluginAbi::Other(a) if a == "vst3"));
        }
        _ => panic!("expected a container"),
    }
}

#[test]
fn test_receiver_nothing_declared() {
    let mut r = file_receiver();
    assert!(matches!(r.finish(), Ok(None)));
}

#[test]
fn test_receiver_errors() {
    let mut r = file_receiver();
    r.add_creator(true, text("x"));
    match r.finish() {
        Err(e) => {
            assert_eq!(e.callback, Some(ReceiverCallback::AddCreator));
            assert!(matches!(e.fault, ReceiverFault::NoPrecedingBegin));
        }
        _ => panic!("expected an error"),
    }

    let mut r = file_receiver();
    assert!(!r.begin_preset(false, RawText::Null, RawText::Null));
    assert!(matches!(r.finish(), Err(e) if matches!(e.fault, ReceiverFault::WrongThread)));

    let mut r = file_receiver();
    assert!(r.begin_preset(true, RawText::Null, RawText::Null));
    r.add_plugin_id(true, text(" CLAP "), text("id"));
    assert!(matches!(r.finish(), Err(e) if matches!(&e.fault, ReceiverFault::AbiTypo(a) if a == " CLAP ")));

    let mut r = file_receiver();
    assert!(r.begin_preset(true, RawText::Null, RawText::Null));
    r.add_feature(true, text(""));
    assert!(matches!(
        r.finish(),
        Err(e) if matches!(e.fault, ReceiverFault::InvalidArgument(Argument::Feature, TextError::Empty))
    ));

    let mut r = file_receiver();
    assert!(r.begin_preset(true, RawText::Null, RawText::Null));
    r.add_plugin_id(true, text("clap"), text("id"));
    assert!(r.begin_preset(true, text("B"), text("k")));
    assert!(!r.begin_preset(true, text("C"), text("k2")));
    assert!(matches!(r.finish(), Err(e) if matches!(e.fault, ReceiverFault::SecondBeginForSingle)));

    let mut r = file_receiver();
    assert!(r.begin_preset(true, RawText::Null, RawText::Null));
    r.set_timestamps(true, 0, 0);
    assert!(matches!(r.finish(), Err(e) if matches!(e.fault, ReceiverFault::BothTimestampsUnknown)));

    let mut r = file_receiver();
    assert!(r.begin_preset(true, RawText::Null, RawText::Null));
    r.set_timestamps(true, u64::MAX, 0);
    assert!(matches!(
        r.finish(),
        Err(e) if matches!(e.fault, ReceiverFault::InvalidTimestamp(TimestampKind::Creation))
    ));

    let mut r = file_receiver();
    assert!(r.begin_preset(true, RawText::Null, RawText::Null));
    match r.finish() {
        Err(e) => {
            assert_eq!(e.callback, None);
            assert!(matches!(&e.fault, ReceiverFault::NoPluginId(PresetName::Filename(n)) if n == "Warm Pad.preset"));
        }
        _ => panic!("expected an error"),
    }
}

#[test]
fn test_receiver_first_error_kept() {
    let mut r = file_receiver();
    r.on_error(true, 2, text("file not found"));
    r.add_creator(false, text("x"));
    match r.finish() {
        Err(e) => {
            assert_eq!(e.callback, Some(ReceiverCallback::OnError));
            assert!(matches!(&e.fault, ReceiverFault::LoadError(2, m) if m == "file not found"));
        }
        _ => panic!("expected an error"),
    }
}

#[test]
fn test_receiver_container_errors() {
    let mut r = file_receiver();
    assert!(!r.begin_preset(true, RawText::Null, text("key")));
    assert!(matches!(r.finish(), Err(e) if matches!(e.fault, ReceiverFault::NamelessContainerPreset)));

    let mut r = file_receiver();
    assert!(r.begin_preset(true, text("A"), text("key")));
    r.add_plugin_id(true, text("clap"), text("id"));
    assert!(r.begin_preset(true, text("B"), text("key2")));
    r.add_plugin_id(true, text("clap"), text("id"));
    assert!(!r.begin_preset(true, text("C"), RawText::Null));
    assert!(matches!(r.finish(), Err(e) if matches!(e.fault, ReceiverFault::KeylessAfterContainer)));

    let mut r = MetadataReceiver::new(LocationValue::File("/".to_string()), no_flags());
    assert!(!r.begin_preset(true, RawText::Null, RawText::Null));
    assert!(matches!(r.finish(), Err(e) if matches!(e.fault, ReceiverFault::NoFileName)));
}
