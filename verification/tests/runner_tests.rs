use clap_validator::listing::{
    plugin_totals, presets_report, PresetGroup, ProviderCounts, ProviderListing, ScanSummary,
};
use clap_validator::runner::{
    fuzzer_step, host_capabilities, port_activity, silenced_inputs, BlockDraws, BlockSizeDraw,
    FuzzerAction, FuzzerEvent, FuzzerState, RunSetup,
};

fn setup() -> RunSetup {
    RunSetup {
        min_buffer_size: 32,
        max_buffer_size: 512,
        can_activate_while_processing: false,
        has_state_extension: true,
        has_params: false,
    }
}

fn draws(size: BlockSizeDraw, toggle_quiet: bool) -> BlockDraws {
    BlockDraws {
        size,
        toggle_quiet,
        redraw_activity: true,
        reset: false,
        deactivate: true,
        save_state: true,
        load_state: false,
        convert_value: true,
        set_render_mode: false,
        poll: true,
    }
}

#[test]
fn test_host_capabilities_from_draws() {
    let caps = host_capabilities(&vec![true, false, true, false, true, false, true]);
    assert!(caps.has_tail_extension);
    assert!(!caps.has_latency_extension);
    assert!(caps.has_state_extension);
    assert!(!caps.has_params_extension);
    assert!(caps.supports_clap_dialect);
    assert!(!caps.supports_midi_dialect);
    assert!(caps.can_rescan_audio_ports);
    assert!(caps.has_audio_ports_extension);
    assert!(caps.has_thread_pool_extension);
}

#[test]
fn test_port_activity() {
    assert_eq!(port_activity(3, false, &vec![]), vec![true, true, true]);
    assert_eq!(port_activity(2, true, &vec![false, true]), vec![false, true]);
    assert_eq!(silenced_inputs(false, &vec![true, false]), vec![false, true]);
    assert_eq!(silenced_inputs(true, &vec![true, false]), vec![true, true]);
}

#[test]
fn test_fuzzer_steps() {
    let state = FuzzerState { blocks_left: 2, is_quiet: false };
    let (state, action) = fuzzer_step(setup(), state, FuzzerEvent::Block(draws(BlockSizeDraw::Largest, true)));
    assert_eq!(state, FuzzerState { blocks_left: 1, is_quiet: true });
    match action {
        FuzzerAction::Process(plan) => {
            assert_eq!(plan.num_samples, 512);
            assert!(plan.quiet);
            assert!(!plan.redraw_activity);
            assert!(plan.deactivate);
            assert!(plan.save_state);
            assert!(!plan.convert_value);
            assert!(plan.poll);
        }
        _ => panic!("expected a block"),
    }

    let (same, action) = fuzzer_step(setup(), state, FuzzerEvent::RestartRequested);
    assert_eq!(same, state);
    assert_eq!(action, FuzzerAction::Reinitialize);

    let (state, action) = fuzzer_step(setup(), state, FuzzerEvent::Block(draws(BlockSizeDraw::InRange(100), false)));
    assert_eq!(state, FuzzerState { blocks_left: 0, is_quiet: true });
    assert!(matches!(action, FuzzerAction::Process(p) if p.num_samples == 100 && p.quiet));

    let (done, action) = fuzzer_step(setup(), state, FuzzerEvent::Block(draws(BlockSizeDraw::Smallest, false)));
    assert_eq!(done, state);
    assert_eq!(action, FuzzerAction::Finished);
}

#[test]
fn test_plugin_totals() {
    let scans = vec![
        ScanSummary::Scanned { plugins: 2, providers: vec![] },
        ScanSummary::Failed,
        ScanSummary::Scanned { plugins: 3, providers: vec![] },
    ];
    let totals = plugin_totals(&scans);
    assert_eq!(totals.files, 3);
    assert_eq!(totals.plugins, 5);
    assert_eq!(totals.errors, 1);
}

#[test]
fn test_presets_report_limits_and_skips() {
    let scans = vec![
        ScanSummary::Scanned { plugins: 1, providers: vec![] },
        ScanSummary::Failed,
        ScanSummary::Scanned {
            plugins: 1,
            providers: vec![ProviderCounts { soundpacks: 1, presets: 5 }, ProviderCounts { soundpacks: 0, presets: 2 }],
        },
    ];
    let report = presets_report(&scans, 2);
    assert_eq!(report.len(), 2);
    assert!(matches!(report[0], PresetGroup::Failure { index: 1 }));
    match &report[1] {
        PresetGroup::Library { index, providers } => {
            assert_eq!(*index, 2);
            assert_eq!(
                providers,
                &vec![
                    ProviderListing { soundpacks_shown: 1, more_soundpacks: 0, presets_shown: 2, more_presets: 3 },
                    ProviderListing { soundpacks_shown: 0, more_soundpacks: 0, presets_shown: 0, more_presets: 2 },
                ]
            );
        }
        _ => panic!("expected a library"),
    }
}

#[test]
fn test_preset_limit_applies_per_library() {
    let scans = vec![ScanSummary::Scanned {
        plugins: 1,
        providers: vec![ProviderCounts { soundpacks: 3, presets: 1 }, ProviderCounts { soundpacks: 0, presets: 1 }],
    }];
    let report = presets_report(&scans, 1);
    match &report[0] {
        PresetGroup::Library { providers, .. } => {
            assert_eq!(providers[0].presets_shown + providers[1].presets_shown, 1);
            assert_eq!(providers[1].more_presets, 1);
            assert_eq!(providers[0].soundpacks_shown, 1);
            assert_eq!(providers[0].more_soundpacks, 2);
        }
        _ => panic!("expected a library"),
    }
}
