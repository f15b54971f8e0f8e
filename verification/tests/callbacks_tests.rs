use clap_validator::callbacks::{log_message, log_route, preset_load_loaded, preset_load_on_error, LogLevel, PresetLoadFault};
use clap_validator::host::{next_toward_deactivated, next_toward_processing, LifecycleAction};
use clap_validator::preset::{LocationError, LocationValue};
use clap_validator::text::{RawText, TextError};
use clap_validator::callbacks::{
    audio_ports_config_rescan, audio_ports_is_rescan_flag_supported, audio_ports_rescan,
    get_extension, host_extension, latency_changed, note_ports_rescan,
    note_ports_supported_dialects, params_clear, params_request_flush, params_rescan,
    state_mark_dirty, tail_changed, thread_pool_request_exec, voice_info_changed, CallContext,
    CallbackEvent, CallbackFault, FirstError, HostCapabilities, HostExtension,
};
use clap_validator::host::PluginStatus;
use clap_validator::params::{
    check_module, FixedText, ModuleError, ParamChecker, ParamError, RangeFacts, RawParamInfo,
};

fn main_thread(status: PluginStatus) -> CallContext {
    CallContext { on_main_thread: true, on_audio_thread: false, status }
}

fn audio_thread(status: PluginStatus) -> CallContext {
    CallContext { on_main_thread: false, on_audio_thread: true, status }
}

fn caps() -> HostCapabilities {
    HostCapabilities::default()
}

#[test]
fn test_host_extensions() {
    assert_eq!(host_extension(b"clap.params", caps()), Some(HostExtension::Params));
    assert_eq!(host_extension(b"clap.audio-ports", caps()), Some(HostExtension::AudioPorts));
    assert_eq!(host_extension(b"clap.audio-ports-config", caps()), Some(HostExtension::AudioPortsConfig));
    assert_eq!(host_extension(b"clap.thread-check", caps()), Some(HostExtension::ThreadCheck));
    assert_eq!(host_extension(b"clap.unknown", caps()), None);
    let no_params = HostCapabilities { has_params_extension: false, ..caps() };
    assert_eq!(host_extension(b"clap.params", no_params), None);
    assert_eq!(get_extension(None, caps()), Err(CallbackFault::NullExtensionId));
    assert_eq!(get_extension(Some(&b"clap.log"[..]), caps()), Ok(Some(HostExtension::Log)));
}

#[test]
fn test_main_thread_checks() {
    let other = CallContext { on_main_thread: false, on_audio_thread: false, status: PluginStatus::Deactivated };
    assert_eq!(params_clear(other, true), Err(CallbackFault::NotMainThread));
    assert_eq!(params_clear(main_thread(PluginStatus::Uninitialized), true), Err(CallbackFault::Uninitialized));
    assert_eq!(params_clear(main_thread(PluginStatus::Deactivated), false), Err(CallbackFault::MissingExtension));
    assert_eq!(params_clear(main_thread(PluginStatus::Deactivated), true), Ok(()));
}

#[test]
fn test_note_ports_callbacks() {
    let ctx = main_thread(PluginStatus::Deactivated);
    assert_eq!(note_ports_supported_dialects(ctx, true, caps()), Ok(7));
    let clap_only = HostCapabilities { supports_midi_dialect: false, ..caps() };
    assert_eq!(note_ports_supported_dialects(ctx, true, clap_only), Ok(1));
    let midi_only = HostCapabilities { supports_clap_dialect: false, ..caps() };
    assert_eq!(note_ports_supported_dialects(ctx, true, midi_only), Ok(6));

    let r = note_ports_rescan(ctx, true, 1 | 2);
    assert_eq!(r.events, vec![CallbackEvent::NotePortsRescanNames, CallbackEvent::NotePortsRescanAll]);
    assert_eq!(r.result, Ok(()));
    let r = note_ports_rescan(main_thread(PluginStatus::Processing), true, 1 | 2);
    assert_eq!(r.events, vec![CallbackEvent::NotePortsRescanNames]);
    assert_eq!(r.result, Err(CallbackFault::WhileActive));
}

#[test]
fn test_audio_ports_callbacks() {
    let ctx = main_thread(PluginStatus::Activated);
    assert_eq!(audio_ports_is_rescan_flag_supported(ctx, true, caps()), Ok(false));
    let r = audio_ports_rescan(ctx, true, caps(), 1);
    assert!(r.events.is_empty());
    assert_eq!(r.result, Err(CallbackFault::RescanUnsupported));
    let can = HostCapabilities { can_rescan_audio_ports: true, ..caps() };
    let r = audio_ports_rescan(ctx, true, can, 1 | 4 | 32);
    assert_eq!(
        r.events,
        vec![
            CallbackEvent::AudioPortsRescanNames,
            CallbackEvent::AudioPortsRescanInfo,
            CallbackEvent::AudioPortsRescanList
        ]
    );
    assert_eq!(r.result, Ok(()));
    let r = audio_ports_rescan(main_thread(PluginStatus::Processing), true, can, 1 | 4);
    assert_eq!(r.events, vec![CallbackEvent::AudioPortsRescanNames]);
    assert_eq!(r.result, Err(CallbackFault::WhileActive));
    let r = audio_ports_config_rescan(ctx, true);
    assert_eq!(r.events, vec![CallbackEvent::AudioPortsConfigRescan]);
}

#[test]
fn test_params_callbacks() {
    let r = params_rescan(main_thread(PluginStatus::Deactivated), true, 1 | 2 | 4 | 8);
    assert_eq!(
        r.events,
        vec![
            CallbackEvent::ParamsRescanValues,
            CallbackEvent::ParamsRescanText,
            CallbackEvent::ParamsRescanInfo,
            CallbackEvent::ParamsRescanAll
        ]
    );
    let r = params_rescan(main_thread(PluginStatus::Processing), true, 1 | 8);
    assert_eq!(r.events, vec![CallbackEvent::ParamsRescanValues]);
    assert_eq!(r.result, Err(CallbackFault::WhileActive));
    let r = params_request_flush(audio_thread(PluginStatus::Processing), true);
    assert_eq!(r.result, Err(CallbackFault::CalledFromAudioThread));
    let other = CallContext { on_main_thread: false, on_audio_thread: false, status: PluginStatus::Activated };
    assert_eq!(params_request_flush(other, true).events, vec![CallbackEvent::RequestFlush]);
}

#[test]
fn test_other_callbacks() {
    let ctx = main_thread(PluginStatus::Activated);
    assert_eq!(state_mark_dirty(ctx, true).events, vec![CallbackEvent::StateMarkDirty]);
    assert_eq!(voice_info_changed(ctx, true).events, vec![CallbackEvent::VoiceInfoChanged]);
    assert_eq!(latency_changed(ctx, true).result, Err(CallbackFault::NotActivating));
    assert_eq!(
        latency_changed(main_thread(PluginStatus::Activating), true).events,
        vec![CallbackEvent::LatencyChanged]
    );
    assert_eq!(tail_changed(ctx, true).result, Err(CallbackFault::AudioFunctionOnMainThread));
    assert_eq!(tail_changed(audio_thread(PluginStatus::Processing), true).events, vec![CallbackEvent::TailChanged]);
    assert_eq!(thread_pool_request_exec(audio_thread(PluginStatus::Processing), true, true), Ok(()));
    assert_eq!(
        thread_pool_request_exec(audio_thread(PluginStatus::Processing), true, false),
        Err(CallbackFault::NotInProcess)
    );
    let unknown = CallContext { on_main_thread: false, on_audio_thread: false, status: PluginStatus::Processing };
    assert_eq!(thread_pool_request_exec(unknown, true, true), Err(CallbackFault::AudioFunctionOnUnknownThread));
}

#[test]
fn test_first_error_kept() {
    let mut first: FirstError<u32> = FirstError::new();
    first.record(1);
    first.record(2);
    assert_eq!(first.take(), Some(1));
    assert_eq!(first.take(), None);
    first.record(3);
    assert_eq!(first.take(), Some(3));
}

fn param(id: u32, name: &str, flags: u32) -> RawParamInfo {
    RawParamInfo {
        id,
        name: FixedText::Text(name.to_string()),
        module: FixedText::Text("main/filter".to_string()),
        flags,
        range: RangeFacts {
            min_above_max: false,
            default_outside_range: false,
            min_not_integer: false,
            max_not_integer: false,
        },
    }
}

#[test]
fn test_check_module() {
    assert_eq!(check_module(&FixedText::Text("a/b".to_string())), None);
    assert_eq!(check_module(&FixedText::Text(String::new())), None);
    assert_eq!(check_module(&FixedText::Text("/a".to_string())), Some(ModuleError::LeadingSlash));
    assert_eq!(check_module(&FixedText::Text("a/".to_string())), Some(ModuleError::TrailingSlash));
    assert_eq!(check_module(&FixedText::Text("a//b".to_string())), Some(ModuleError::DoubleSlash));
    assert_eq!(check_module(&FixedText::Unterminated), Some(ModuleError::Unterminated));
    assert_eq!(check_module(&FixedText::InvalidUtf8), Some(ModuleError::InvalidUtf8));
}

#[test]
fn test_param_checker() {
    let mut checker = ParamChecker::new();
    let p = checker.check(0, param(1, "Gain", 32 | 1024)).ok().unwrap();
    assert_eq!(p.id, 1);
    assert_eq!(p.name, "Gain");
    assert!(p.automatable());
    assert!(p.modulatable());
    assert!(!p.hidden());
    assert!(matches!(checker.check(1, param(1, "Again", 0)), Err(ParamError::DuplicateId { id: 1 })));
    assert!(matches!(checker.check(2, param(u32::MAX, "x", 0)), Err(ParamError::InvalidId { index: 2 })));
    assert!(matches!(checker.check(3, param(5, "x", 64)), Err(ParamError::PolyAutomatableOnly { id: 5, .. })));
    assert!(matches!(checker.check(3, param(5, "x", 2048)), Err(ParamError::PolyModulatableOnly { id: 5, .. })));
    assert!(matches!(checker.check(3, param(5, "x", 8 | 32)), Err(ParamError::ReadonlyAutomatable { id: 5, .. })));
    assert!(matches!(checker.check(4, param(6, "Bypass", 16)), Err(ParamError::BypassNotStepped { id: 6, .. })));
    assert!(matches!(
        checker.check(5, param(7, "Bypass 2", 16 | 1)),
        Err(ParamError::MultipleBypass { first: 6, second: 7 })
    ));
    let mut bad = param(8, "x", 1);
    bad.range.min_not_integer = true;
    assert!(matches!(checker.check(6, bad), Err(ParamError::SteppedMinNotInteger { id: 8, .. })));
    let mut bad = param(8, "x", 0);
    bad.name = FixedText::Unterminated;
    assert!(matches!(checker.check(6, bad), Err(ParamError::NameUnreadable { id: 8, unterminated: true })));
    let mut bad = param(8, "x", 0);
    bad.module = FixedText::Text("/x".to_string());
    assert!(matches!(
        checker.check(6, bad),
        Err(ParamError::Module { id: 8, error: ModuleError::LeadingSlash, .. })
    ));
    let mut bad = param(8, "x", 0);
    bad.range.min_above_max = true;
    assert!(matches!(checker.check(6, bad), Err(ParamError::MinAboveMax { id: 8, .. })));
}

#[test]
fn test_param_info_in_id_order() {
    let mut checker = ParamChecker::new();
    assert!(checker.check(0, param(9, "Mix", 32)).is_ok());
    assert!(checker.check(1, param(2, "Gain", 0)).is_ok());
    assert!(checker.check(2, param(2, "Again", 0)).is_err());
    assert!(checker.check(3, param(5, "Tone", 1)).is_ok());
    let info = checker.into_info();
    let ids: Vec<u32> = info.keys().copied().collect();
    assert_eq!(ids, vec![2, 5, 9]);
    assert_eq!(info[&2].name, "Gain");
    assert_eq!(info[&9].flags, 32);
}

#[test]
fn test_preset_load_callbacks() {
    let ctx = main_thread(PluginStatus::Activated);
    let text = |s: &str| RawText::Text(s.to_string());
    let fault = preset_load_on_error(ctx, true, 0, text("/p/a.preset"), text("k"), 2, text("missing"));
    assert!(matches!(
        fault,
        PresetLoadFault::LoadError { location: LocationValue::File(ref p), load_key: Some(ref k), os_error: 2, ref message }
            if p == "/p/a.preset" && k == "k" && message == "missing"
    ));
    assert!(matches!(
        preset_load_on_error(ctx, true, 1, RawText::Null, RawText::Null, 0, text("")),
        PresetLoadFault::Message(TextError::Empty)
    ));
    assert!(matches!(
        preset_load_on_error(ctx, false, 1, RawText::Null, RawText::Null, 0, text("x")),
        PresetLoadFault::Callback(CallbackFault::MissingExtension)
    ));
    assert!(preset_load_loaded(ctx, true, 1, RawText::Null, RawText::Null).is_ok());
    assert!(matches!(
        preset_load_loaded(ctx, true, 0, text("relative"), RawText::Null),
        Err(PresetLoadFault::Location(LocationError::NotAbsolute(_)))
    ));
    assert!(matches!(
        preset_load_loaded(ctx, true, 1, RawText::Null, RawText::InvalidUtf8),
        Err(PresetLoadFault::LoadKey(TextError::InvalidUtf8))
    ));
}

#[test]
fn test_log_routing() {
    assert_eq!(log_route(3), (LogLevel::Error, "plugin::error"));
    assert_eq!(log_route(4), (LogLevel::Error, "plugin::fatal"));
    assert_eq!(log_route(2), (LogLevel::Warn, "plugin::warning"));
    assert_eq!(log_route(1), (LogLevel::Info, "plugin::info"));
    assert_eq!(log_route(0), (LogLevel::Debug, "plugin::debug"));
    assert_eq!(log_route(6), (LogLevel::Error, "plugin::plugin-misbehaving"));
    assert_eq!(log_route(42), (LogLevel::Debug, "plugin"));
    assert_eq!(log_message(RawText::Null), "<null>");
    assert_eq!(log_message(RawText::InvalidUtf8), "<invalid utf-8>");
    assert_eq!(log_message(RawText::Text("hi".to_string())), "hi");
}

#[test]
fn test_lifecycle_steps() {
    assert_eq!(next_toward_processing(PluginStatus::Deactivated, false), Some(LifecycleAction::Activate));
    assert_eq!(next_toward_processing(PluginStatus::Activated, false), Some(LifecycleAction::StartProcessing));
    assert_eq!(next_toward_processing(PluginStatus::Processing, false), None);
    assert_eq!(next_toward_processing(PluginStatus::Processing, true), Some(LifecycleAction::StopProcessing));
    assert_eq!(next_toward_processing(PluginStatus::Activated, true), Some(LifecycleAction::Deactivate));
    assert_eq!(next_toward_processing(PluginStatus::Deactivated, true), Some(LifecycleAction::Activate));
    assert_eq!(next_toward_deactivated(PluginStatus::Processing), Some(LifecycleAction::StopProcessing));
    assert_eq!(next_toward_deactivated(PluginStatus::Activated), Some(LifecycleAction::Deactivate));
    assert_eq!(next_toward_deactivated(PluginStatus::Deactivated), None);
}
