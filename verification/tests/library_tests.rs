use clap_validator::fuzz::keep_fuzzing;
use clap_validator::fuzz::blocks_to_process;
use clap_validator::callbacks::CallbackEvent;
use clap_validator::fuzz::{config_changes, ConfigChanges};
use clap_validator::fuzz::{
    all_succeeded, check_selection, discover, ChunkOutcome, FuzzCollector, FuzzResult,
    SandboxedFuzzChunk, SelectionError,
};
use clap_validator::host::{
    activation_step, after_init, callback_round, should_stop, status_after_activation_step,
    ActivationStep, CallbackRound, CallbackTask, InitError, PluginStatus, ThreadSafetyError,
    ThreadSafetyLog,
};
use clap_validator::index::{
    clap_directories, clap_env_path_directories, has_clap_extension, path_separator, DirectoryError, DirectoryVars, Platform,
};
use clap_validator::library::{
    DescriptorField, MetadataError, PluginLibraryMetadata, PluginMetadata, ProviderError,
    ProviderListError, ProviderMetadata, RawPluginDescriptor, RawProviderDescriptor,
};
use clap_validator::panic::PanicPayload;
use clap_validator::status::FuzzStatus;
use clap_validator::text::{RawText, TextError};

fn text(s: &str) -> RawText {
    RawText::Text(s.to_string())
}

fn descriptor(id: &str) -> RawPluginDescriptor {
    RawPluginDescriptor {
        id: text(id),
        name: text("Synth"),
        version: text("1.0"),
        vendor: text(""),
        description: RawText::Null,
        manual_url: RawText::Null,
        support_url: RawText::Null,
        features: Some(vec![text("instrument"), text("stereo")]),
    }
}

fn provider(id: &str) -> RawProviderDescriptor {
    RawProviderDescriptor { id: text(id), name: text("Presets"), vendor: RawText::Null, clap_version: (1, 2, 0) }
}

fn library(path: &str, ids: &[&str]) -> (String, PluginLibraryMetadata) {
    let plugins = ids
        .iter()
        .map(|id| PluginMetadata::from_descriptor(descriptor(id)).ok().unwrap())
        .collect();
    (path.to_string(), PluginLibraryMetadata { version: (1, 2, 0), plugins })
}

#[test]
fn test_plugin_metadata_from_descriptor() {
    let m = PluginMetadata::from_descriptor(descriptor("com.example.synth")).ok().unwrap();
    assert_eq!(m.id, "com.example.synth");
    assert_eq!(m.name, "Synth");
    assert_eq!(m.version, Some("1.0".to_string()));
    assert_eq!(m.vendor, None);
    assert_eq!(m.description, None);
    assert_eq!(m.features, vec!["instrument".to_string(), "stereo".to_string()]);
}

#[test]
fn test_plugin_metadata_errors() {
    let mut d = descriptor("x");
    d.id = RawText::Null;
    assert!(matches!(PluginMetadata::from_descriptor(d), Err((DescriptorField::Id, TextError::Null))));
    let mut d = descriptor("x");
    d.vendor = RawText::InvalidUtf8;
    assert!(matches!(
        PluginMetadata::from_descriptor(d),
        Err((DescriptorField::Vendor, TextError::InvalidUtf8))
    ));
    let mut d = descriptor("x");
    d.features = None;
    assert!(matches!(PluginMetadata::from_descriptor(d), Err((DescriptorField::Features, TextError::Null))));
}

#[test]
fn test_library_metadata() {
    let m = PluginLibraryMetadata::from_descriptors((1, 2, 3), vec![Some(descriptor("a")), Some(descriptor("b"))])
        .ok()
        .unwrap();
    assert_eq!(m.version, (1, 2, 3));
    assert_eq!(m.plugins.len(), 2);
    assert_eq!(m.plugins[1].id, "b");
    assert!(matches!(
        PluginLibraryMetadata::from_descriptors((1, 2, 3), vec![Some(descriptor("a")), None]),
        Err(MetadataError::NullDescriptor(1))
    ));
    assert!(matches!(
        PluginLibraryMetadata::from_descriptors((1, 2, 3), vec![Some(descriptor("a")), Some(descriptor("a"))]),
        Err(MetadataError::DuplicateId)
    ));
}

#[test]
fn test_provider_metadata() {
    let p = ProviderMetadata::from_descriptor(Some(provider("p"))).ok().unwrap();
    assert_eq!(p.id, "p");
    assert_eq!(p.name, "Presets");
    assert_eq!(p.vendor, None);
    assert!(p.is_supported());
    let old = ProviderMetadata { version: (0, 9, 0), ..p };
    assert!(!old.is_supported());
    assert!(matches!(ProviderMetadata::from_descriptor(None), Err(ProviderError::NullDescriptor)));
    let mut bad = provider("p");
    bad.name = text("");
    assert!(matches!(ProviderMetadata::from_descriptor(Some(bad)), Err(ProviderError::Name(TextError::Empty))));
    assert!(matches!(
        ProviderMetadata::from_descriptors(vec![Some(provider("a")), Some(provider("a"))]),
        Err(ProviderListError::DuplicateId)
    ));
    assert!(matches!(
        ProviderMetadata::from_descriptors(vec![Some(provider("a")), None]),
        Err(ProviderListError::Descriptor(1, ProviderError::NullDescriptor))
    ));
    assert_eq!(ProviderMetadata::from_descriptors(vec![Some(provider("a")), Some(provider("b"))]).ok().unwrap().len(), 2);
}

#[test]
fn test_discover_plugins() {
    let libraries = vec![library("/a.clap", &["x", "y"]), library("/b.clap", &["y", "z"])];
    assert_eq!(
        discover(&libraries, None),
        vec![
            ("/a.clap".to_string(), "x".to_string()),
            ("/a.clap".to_string(), "y".to_string()),
            ("/b.clap".to_string(), "y".to_string()),
            ("/b.clap".to_string(), "z".to_string()),
        ]
    );
    assert_eq!(
        discover(&libraries, Some("y")),
        vec![("/a.clap".to_string(), "y".to_string()), ("/b.clap".to_string(), "y".to_string())]
    );
    assert!(discover(&libraries, Some("missing")).is_empty());
}

#[test]
fn test_check_selection() {
    assert_eq!(check_selection(0, None), Err(SelectionError::NoPlugins));
    assert_eq!(check_selection(2, Some(7)), Err(SelectionError::AmbiguousReproduction));
    assert_eq!(check_selection(1, Some(7)), Ok(()));
    assert_eq!(check_selection(3, None), Ok(()));
}

fn result(status: FuzzStatus, seed: u64) -> FuzzResult {
    FuzzResult { status, library: "/a.clap".to_string(), plugin_id: "x".to_string(), seed }
}

#[test]
fn test_fuzz_chunk_run() {
    let chunk = SandboxedFuzzChunk { library: "/a.clap".to_string(), plugin_id: "x".to_string(), seed: 1 };
    assert!(matches!(chunk.run(ChunkOutcome::Finished(FuzzStatus::Success)), FuzzStatus::Success));
    assert!(matches!(
        chunk.run(ChunkOutcome::Failed(vec!["outer".to_string(), "inner".to_string()])),
        FuzzStatus::Failed { details } if details == "outer\ninner"
    ));
    assert!(matches!(
        chunk.run(ChunkOutcome::Panicked(PanicPayload::Message("oops".to_string()))),
        FuzzStatus::Crashed { details } if details == "oops. This is a bug in the validator"
    ));
}

#[test]
fn test_fuzz_collector_stops_at_limit() {
    let mut c = FuzzCollector::new(2);
    assert!(c.is_running());
    c.record(result(FuzzStatus::Success, 1));
    c.record(result(FuzzStatus::Failed { details: "a".to_string() }, 2));
    assert!(c.is_running());
    c.record(result(FuzzStatus::Crashed { details: "b".to_string() }, 3));
    assert!(!c.is_running());
    let results = c.into_results();
    assert_eq!(results.iter().map(|r| r.seed).collect::<Vec<_>>(), vec![2, 3]);
    assert!(!all_succeeded(&results));
    assert!(all_succeeded(&vec![result(FuzzStatus::Success, 4)]));
    assert!(all_succeeded(&vec![]));
}

fn vars(home: Option<&str>, clap_path: Option<&str>) -> DirectoryVars {
    DirectoryVars {
        home: home.map(|s| s.to_string()),
        clap_path: clap_path.map(|s| s.to_string()),
        common_program_files: None,
        local_app_data: None,
    }
}

#[test]
fn test_clap_directories() {
    assert_eq!(clap_env_path_directories(None, ':'), Vec::<String>::new());
    assert_eq!(
        clap_env_path_directories(Some("/a:/b::"), ':'),
        vec!["/a".to_string(), "/b".to_string(), String::new(), String::new()]
    );
    assert_eq!(clap_env_path_directories(Some("C:\\a;D:\\b"), ';'), vec!["C:\\a".to_string(), "D:\\b".to_string()]);
    assert_eq!(path_separator(Platform::Windows), ';');
    assert_eq!(path_separator(Platform::Unix), ':');
    assert_eq!(
        clap_directories(Platform::Unix, &vars(Some("/home/u"), Some("/opt/clap"))),
        Ok(vec!["/opt/clap".to_string(), "/home/u/.clap".to_string(), "/usr/lib/clap".to_string()])
    );
    assert_eq!(
        clap_directories(Platform::Unix, &vars(Some("/home/u"), None)),
        Ok(vec!["/home/u/.clap".to_string(), "/usr/lib/clap".to_string()])
    );
    assert_eq!(clap_directories(Platform::Unix, &vars(None, Some("/opt"))), Err(DirectoryError::HomeNotSet));
    assert_eq!(
        clap_directories(Platform::MacOs, &vars(Some("/Users/u"), None)),
        Ok(vec!["/Users/u/Library/Audio/Plug-Ins/CLAP".to_string(), "/Library/Audio/Plug-Ins/CLAP".to_string()])
    );
    assert_eq!(clap_directories(Platform::MacOs, &vars(None, None)), Err(DirectoryError::HomeNotSet));
    assert_eq!(
        clap_directories(Platform::Windows, &vars(Some("/home/u"), None)),
        Err(DirectoryError::CommonProgramFilesNotSet)
    );
    let mut windows = vars(None, None);
    windows.common_program_files = Some("/common".to_string());
    assert_eq!(clap_directories(Platform::Windows, &windows), Err(DirectoryError::LocalAppDataNotSet));
    windows.local_app_data = Some("/local".to_string());
    assert_eq!(
        clap_directories(Platform::Windows, &windows),
        Ok(vec!["/common/CLAP".to_string(), "/local/Programs/Common/CLAP".to_string()])
    );
}

#[test]
fn test_clap_extension() {
    assert!(has_clap_extension("/usr/lib/clap/Synth.clap"));
    assert!(!has_clap_extension("/usr/lib/clap/readme.txt"));
    assert!(!has_clap_extension("/usr/lib/clap/.clap"));
    assert!(!has_clap_extension("/usr/lib/clap/Synth.CLAP"));
    assert!(!has_clap_extension("/usr/lib/clap/noext"));
}

#[test]
fn test_plugin_lifecycle_decisions() {
    assert_eq!(after_init(false, true), (PluginStatus::Uninitialized, Err(InitError::Refused)));
    assert_eq!(after_init(true, false), (PluginStatus::Initializing, Err(InitError::NoMainThreadCallback)));
    assert_eq!(after_init(true, true), (PluginStatus::Deactivated, Ok(())));
    assert_eq!(activation_step(5, false, true), ActivationStep::Refused);
    assert_eq!(activation_step(5, true, false), ActivationStep::Done);
    assert_eq!(activation_step(5, true, true), ActivationStep::Restart);
    assert_eq!(activation_step(0, true, true), ActivationStep::Stuck);
    assert_eq!(status_after_activation_step(ActivationStep::Stuck), PluginStatus::Activated);
    assert_eq!(status_after_activation_step(ActivationStep::Restart), PluginStatus::Deactivated);
    assert_eq!(PluginStatus::default(), PluginStatus::Uninitialized);
    assert!(PluginStatus::Processing.rank() > PluginStatus::Activated.rank());
    assert!(PluginStatus::Activated.is_active());
    assert!(!PluginStatus::Deactivated.is_active());
}

#[test]
fn test_callback_rounds() {
    assert!(!should_stop(&vec![CallbackTask::Poll, CallbackTask::Poll]));
    assert!(should_stop(&vec![CallbackTask::Poll, CallbackTask::Stop]));
    assert_eq!(callback_round(0, false), CallbackRound::Idle);
    assert_eq!(callback_round(0, true), CallbackRound::Again);
    assert_eq!(callback_round(8, true), CallbackRound::Again);
    assert_eq!(callback_round(9, true), CallbackRound::GiveUp);
}

#[test]
fn test_thread_safety_log_keeps_first() {
    let mut log = ThreadSafetyLog::new();
    log.assert_main_thread("clap_host::request_callback".to_string(), true);
    assert!(log.check().is_ok());
    log.assert_not_audio_thread("clap_host_params::rescan".to_string(), true);
    log.assert_main_thread("clap_host::other".to_string(), false);
    assert!(matches!(
        log.check(),
        Err(ThreadSafetyError::ForbiddenOnAudioThread { function }) if function == "clap_host_params::rescan"
    ));
    let mut log = ThreadSafetyLog::new();
    log.assert_audio_thread("clap_host::f".to_string(), false, true);
    assert!(matches!(log.check(), Err(ThreadSafetyError::AudioOnMainThread { .. })));
}

#[test]
fn test_blocks_to_process() {
    assert_eq!(blocks_to_process(20000, 512), 40);
    assert_eq!(blocks_to_process(20480, 512), 40);
    assert_eq!(blocks_to_process(20481, 512), 41);
    assert_eq!(blocks_to_process(0, 64), 0);
    assert_eq!(blocks_to_process(u32::MAX, 1), u32::MAX);
    assert_eq!(blocks_to_process(u32::MAX, u32::MAX), 1);
}

#[test]
fn test_config_changes() {
    assert_eq!(
        config_changes(&vec![CallbackEvent::RequestFlush, CallbackEvent::AudioPortsRescanNames]),
        ConfigChanges { audio_ports: false, note_ports: false, params: false }
    );
    assert_eq!(
        config_changes(&vec![CallbackEvent::AudioPortsConfigRescan, CallbackEvent::ParamsRescanInfo]),
        ConfigChanges { audio_ports: true, note_ports: false, params: true }
    );
    assert_eq!(
        config_changes(&vec![CallbackEvent::NotePortsRescanAll, CallbackEvent::ParamsRescanValues]),
        ConfigChanges { audio_ports: false, note_ports: true, params: false }
    );
}

#[test]
fn test_keep_fuzzing() {
    assert!(keep_fuzzing(10, None, true));
    assert!(!keep_fuzzing(10, None, false));
    assert!(keep_fuzzing(629_999, Some(630_000), true));
    assert!(!keep_fuzzing(630_000, Some(630_000), true));
    assert!(!keep_fuzzing(1, Some(630_000), false));
}
