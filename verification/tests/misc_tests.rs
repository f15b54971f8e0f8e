use std::any::TypeId;

use clap_validator::indexer::{
    extension_allowed, DeclarationError, Field, FileType, Indexer, IndexerError, Location,
    RawFileType, RawLocation, RawSoundpack, Soundpack,
};
use clap_validator::keyed::{str_lt, string_eq, KeyedList};
use clap_validator::preset::{LocationError, LocationValue};
use clap_validator::registry::{ObjectRegistry, ProxyError};
use clap_validator::stream::{ByteReader, ByteWriter};
use clap_validator::text::{
    is_whitespace, join_with_newlines, mandatory_string, optional_string, read_string,
    str_starts_with, trimmed_eq_ignore_ascii_case_exec, RawText, TextError,
};
use clap_validator::tracing::{check_error, Span};

fn text(s: &str) -> RawText {
    RawText::Text(s.to_string())
}

fn file_type(ext: &str) -> RawFileType {
    RawFileType { name: text("Preset"), description: RawText::Null, file_extension: text(ext) }
}

fn soundpack(id: &str, timestamp: u64) -> RawSoundpack {
    RawSoundpack {
        flags: 1,
        id: text(id),
        name: text("Pack"),
        description: text(""),
        homepage_url: RawText::Null,
        vendor: text("Vendor"),
        image_path: RawText::Null,
        release_timestamp: timestamp,
    }
}

#[test]
fn test_text_reading() {
    assert!(matches!(read_string(RawText::Null), Ok(None)));
    assert!(matches!(read_string(text("")), Ok(Some(s)) if s.is_empty()));
    assert!(matches!(read_string(RawText::InvalidUtf8), Err(TextError::InvalidUtf8)));
    assert!(matches!(mandatory_string(text("x")), Ok(s) if s == "x"));
    assert!(matches!(mandatory_string(text("")), Err(TextError::Empty)));
    assert!(matches!(mandatory_string(RawText::Null), Err(TextError::Null)));
    assert!(matches!(optional_string(text("")), Ok(None)));
    assert!(matches!(optional_string(RawText::Null), Ok(None)));
    assert!(matches!(optional_string(text("y")), Ok(Some(s)) if s == "y"));
}

#[test]
fn test_text_helpers() {
    assert!(is_whitespace(' '));
    assert!(is_whitespace('\n'));
    assert!(!is_whitespace('a'));
    assert!(trimmed_eq_ignore_ascii_case_exec("  ClAp \t", "clap"));
    assert!(!trimmed_eq_ignore_ascii_case_exec("cl ap", "clap"));
    assert!(!trimmed_eq_ignore_ascii_case_exec("claps", "clap"));
    assert_eq!(join_with_newlines(&vec!["a".to_string(), "b".to_string(), "c".to_string()]), "a\nb\nc");
    assert_eq!(join_with_newlines(&vec![]), "");
    assert!(str_starts_with("/abs", '/'));
    assert!(!str_starts_with("", '/'));
    assert!(string_eq("same", "same"));
    assert!(str_lt("a", "b"));
    assert!(str_lt("a", "ab"));
    assert!(!str_lt("ab", "a"));
    assert!(!str_lt("x", "x"));
    assert!(str_lt("Z", "a"));
    assert!(str_lt("", "a"));
    assert!(!string_eq("same", "Same"));
}

#[test]
fn test_keyed_list() {
    let mut list: KeyedList<String> = KeyedList::new();
    assert_eq!(list.len(), 0);
    list.insert("b".to_string(), "1".to_string());
    list.insert("a".to_string(), "2".to_string());
    list.insert("b".to_string(), "3".to_string());
    assert_eq!(list.len(), 2);
    assert_eq!(list.get("b"), Some(&"3".to_string()));
    assert_eq!(list.get("c"), None);
    list.insert("ab".to_string(), "4".to_string());
    list.insert("B".to_string(), "5".to_string());
    assert_eq!(
        list.into_entries(),
        vec![
            ("B".to_string(), "5".to_string()),
            ("a".to_string(), "2".to_string()),
            ("ab".to_string(), "4".to_string()),
            ("b".to_string(), "3".to_string()),
        ]
    );
}

#[test]
fn test_byte_reader() {
    let mut reader = ByteReader::new(vec![1, 2, 3, 4, 5], Some(2));
    assert_eq!(reader.read(10), vec![1, 2]);
    assert_eq!(reader.read(1), vec![3]);
    assert_eq!(reader.read(10), vec![4, 5]);
    assert_eq!(reader.read(10), Vec::<u8>::new());
    let mut unlimited = ByteReader::new(vec![1, 2, 3], None);
    assert_eq!(unlimited.read(u64::MAX), vec![1, 2, 3]);
}

#[test]
fn test_byte_writer() {
    let mut writer = ByteWriter::new(Some(3));
    assert_eq!(writer.accepted_size(10), 3);
    assert_eq!(writer.accepted_size(2), 2);
    writer.write(&[1, 2, 3]);
    writer.write(&[4]);
    assert_eq!(writer.take(), vec![1, 2, 3, 4]);
    assert_eq!(ByteWriter::new(None).accepted_size(1 << 40), 1 << 40);
}

#[test]
fn test_state_roundtrip_through_streams() {
    let state = vec![9u8, 8, 7, 6, 5, 4, 3];
    let mut writer = ByteWriter::new(Some(2));
    let mut offset = 0;
    while offset < state.len() {
        let n = writer.accepted_size((state.len() - offset) as u64) as usize;
        writer.write(&state[offset..offset + n]);
        offset += n;
    }
    let written = writer.take();
    let mut reader = ByteReader::new(written, Some(3));
    let mut read_back = Vec::new();
    loop {
        let chunk = reader.read(100);
        if chunk.is_empty() {
            break;
        }
        read_back.extend(chunk);
    }
    assert_eq!(read_back, state);
}

#[test]
fn test_object_registry() {
    let mut registry = ObjectRegistry::new();
    let t = TypeId::of::<u32>();
    let other = TypeId::of::<u64>();
    assert!(matches!(registry.check(0, t, "Stream"), Err(ProxyError::Null { expected: "Stream" })));
    assert!(matches!(registry.check(64, t, "Stream"), Err(ProxyError::Invalid { .. })));
    registry.track(64, t, "Stream");
    assert!(registry.check(64, t, "Stream").is_ok());
    assert!(matches!(
        registry.check(64, other, "Indexer"),
        Err(ProxyError::WrongType { expected: "Indexer", got: "Stream" })
    ));
    registry.untrack(64, t);
    assert!(matches!(registry.check(64, t, "Stream"), Err(ProxyError::Expired { .. })));
    registry.track(64, t, "Stream");
    assert!(registry.check(64, t, "Stream").is_ok());
}

#[test]
fn test_tracing_helpers() {
    assert_eq!(Span::named("clap_host::request_callback").name(), "clap_host::request_callback");
    assert!(matches!(check_error(None), Err(e) if e == "instrumentation not started"));
    assert!(check_error(Some(Ok(()))).is_ok());
    assert!(matches!(check_error(Some(Err("disk full".to_string()))), Err(e) if e == "disk full"));
}

#[test]
fn test_declared_structures() {
    let f = FileType::from_descriptor(Some(file_type("vstpreset"))).ok().unwrap();
    assert_eq!(f.extension, "vstpreset");
    assert_eq!(f.description, None);
    assert!(matches!(FileType::from_descriptor(Some(file_type(".fxp"))), Err(DeclarationError::LeadingPeriod(e)) if e == ".fxp"));
    assert!(matches!(
        FileType::from_descriptor(Some(file_type(""))),
        Err(DeclarationError::Field(Field::FileExtension, TextError::Empty))
    ));
    assert!(matches!(FileType::from_descriptor(None), Err(DeclarationError::Null)));

    let loc = Location::from_descriptor(Some(RawLocation {
        flags: 2,
        name: text("User presets"),
        kind: 0,
        location: text("/home/u/presets"),
    }))
    .ok()
    .unwrap();
    assert!(loc.flags.is_user_content);
    assert!(matches!(&loc.value, LocationValue::File(p) if p == "/home/u/presets"));
    assert!(matches!(
        Location::from_descriptor(Some(RawLocation { flags: 0, name: text("x"), kind: 1, location: text("/x") })),
        Err(DeclarationError::Location(LocationError::NonNullPluginLocation))
    ));

    let pack = Soundpack::from_descriptor(Some(soundpack("pack", 0))).ok().unwrap();
    assert_eq!(pack.id, "pack");
    assert_eq!(pack.description, None);
    assert_eq!(pack.vendor, Some("Vendor".to_string()));
    assert!(pack.release_timestamp.is_none());
    assert!(matches!(Soundpack::from_descriptor(Some(soundpack("pack", u64::MAX))), Err(DeclarationError::InvalidTimestamp)));
}

#[test]
fn test_indexer() {
    let mut indexer = Indexer::new();
    assert!(indexer.declare_filetype(true, Some(file_type("preset"))));
    assert!(indexer.declare_soundpack(true, Some(soundpack("p", 0))));
    indexer.get_extension(false);
    let results = indexer.finish().ok().unwrap();
    assert_eq!(results.file_types.len(), 1);
    assert_eq!(results.soundpacks.len(), 1);
    assert!(results.locations.is_empty());
    assert!(matches!(indexer.finish(), Err(IndexerError::AlreadyFinished)));

    let mut indexer = Indexer::new();
    assert!(!indexer.declare_filetype(false, Some(file_type("preset"))));
    assert!(!indexer.declare_location(true, None));
    assert!(matches!(indexer.finish(), Err(IndexerError::Callback { .. })));
}

#[test]
fn test_extension_allowed() {
    assert!(extension_allowed(&vec![], None));
    assert!(extension_allowed(&vec![], Some("txt")));
    let allowed = vec!["preset".to_string(), "fxp".to_string()];
    assert!(extension_allowed(&allowed, Some("fxp")));
    assert!(!extension_allowed(&allowed, Some("txt")));
    assert!(!extension_allowed(&allowed, None));
}
