//! The decisions of a fuzzing run, one step at a time.
//!
//! A run is fully determined by its seed: every random choice is drawn by the caller from the
//! seeded generator and handed in here, and the functions below decide what the host does with
//! it. The caller performs the plugin calls that the returned plan names and reports back what
//! happened; replaying the same draws gives the same run.

use crate::callbacks::HostCapabilities;
use vstd::prelude::*;

verus! {

/// The host capabilities of a run from its first seven draws: whether the host offers the tail,
/// latency, state and parameter extensions, whether it supports the CLAP and MIDI note
/// dialects, and whether it allows audio port rescans. Everything else is as by default.
pub open spec fn spec_host_capabilities(draws: Seq<bool>) -> HostCapabilities {
    HostCapabilities {
        has_tail_extension: draws[0],
        has_latency_extension: draws[1],
        has_state_extension: draws[2],
        has_params_extension: draws[3],
        has_audio_ports_extension: true,
        has_note_ports_extension: true,
        has_thread_pool_extension: true,
        supports_clap_dialect: draws[4],
        supports_midi_dialect: draws[5],
        can_rescan_audio_ports: draws[6],
    }
}

/// The capabilities the host offers the plugin in a run, from the run's first seven draws.
pub fn host_capabilities(draws: &Vec<bool>) -> (r: HostCapabilities)
    requires
        draws@.len() == 7,
    ensures
        r == spec_host_capabilities(draws@),
{
    HostCapabilities {
        has_tail_extension: draws[0],
        has_latency_extension: draws[1],
        has_state_extension: draws[2],
        has_params_extension: draws[3],
        has_audio_ports_extension: true,
        has_note_ports_extension: true,
        has_thread_pool_extension: true,
        supports_clap_dialect: draws[4],
        supports_midi_dialect: draws[5],
        can_rescan_audio_ports: draws[6],
    }
}

/// Which ports are active after the audio port configuration was (re)queried: all of them,
/// unless the plugin has the audio ports activation extension, in which case each port is
/// active as drawn for it.
pub fn port_activity(count: usize, has_activation_extension: bool, draws: &Vec<bool>) -> (r: Vec<
    bool,
>)
    requires
        has_activation_extension ==> draws@.len() == count,
    ensures
        r@.len() == count,
        has_activation_extension ==> r@ == draws@,
        !has_activation_extension ==> forall|i: int| 0 <= i < count ==> #[trigger] r@[i],
{
    let mut r: Vec<bool> = Vec::new();
    let mut i: usize = 0;
    while i < count
        invariant
            i <= count,
            has_activation_extension ==> draws@.len() == count,
            r@.len() == i,
            forall|j: int|
                0 <= j < i ==> #[trigger] r@[j] == (if has_activation_extension {
                    draws@[j]
                } else {
                    true
                }),
        decreases count - i,
    {
        if has_activation_extension {
            r.push(draws[i]);
        } else {
            r.push(true);
        }
        i = i + 1;
    }
    proof {
        if has_activation_extension {
            assert(r@ =~= draws@);
        }
    }
    r
}

/// What a run is set up with for one configuration: the buffer size range and what the plugin
/// and host support.
#[derive(Clone, Copy, PartialEq, Eq, Structural, Debug)]
pub struct RunSetup {
    pub min_buffer_size: u32,
    pub max_buffer_size: u32,
    /// The plugin lets ports be activated and deactivated while it processes.
    pub can_activate_while_processing: bool,
    /// The host offers the state extension in this run.
    pub has_state_extension: bool,
    /// The plugin has at least one parameter.
    pub has_params: bool,
}

/// The state of the processing loop: the blocks still to process, and whether the run is in a
/// quiet section (no events, silent inputs).
#[derive(Clone, Copy, PartialEq, Eq, Structural, Debug)]
pub struct FuzzerState {
    pub blocks_left: u32,
    pub is_quiet: bool,
}

/// The block size drawn for a block: a size drawn from the buffer size range, the largest size,
/// or the smallest.
#[derive(Clone, Copy, PartialEq, Eq, Structural, Debug)]
pub enum BlockSizeDraw {
    InRange(u32),
    Largest,
    Smallest,
}

/// The draws made for one block, in the order the run makes them: the block size, whether the
/// quiet section toggles, whether to redraw port activity (only drawn where the plugin allows
/// it while processing), whether to reset or deactivate the plugin, whether to save or load its
/// state (only drawn where the host offers state), whether to test a parameter's text
/// conversion, whether to change the render mode, and whether to poll for callbacks.
#[derive(Clone, Copy, PartialEq, Eq, Structural, Debug)]
pub struct BlockDraws {
    pub size: BlockSizeDraw,
    pub toggle_quiet: bool,
    pub redraw_activity: bool,
    pub reset: bool,
    pub deactivate: bool,
    pub save_state: bool,
    pub load_state: bool,
    pub convert_value: bool,
    pub set_render_mode: bool,
    pub poll: bool,
}

/// What the processing loop learns before a block.
#[derive(Clone, Copy, PartialEq, Eq, Structural, Debug)]
pub enum FuzzerEvent {
    /// The plugin asked to be restarted.
    RestartRequested,
    /// The draws for the next block.
    Block(BlockDraws),
}

/// What the host does for one block.
#[derive(Clone, Copy, PartialEq, Eq, Structural, Debug)]
pub struct BlockPlan {
    pub num_samples: u32,
    /// Redraw which ports are active, after activating the plugin.
    pub redraw_activity: bool,
    pub reset: bool,
    pub deactivate: bool,
    /// Send no events and feed silence; otherwise send random events, a random transport and
    /// random audio, with silence on inactive inputs.
    pub quiet: bool,
    pub save_state: bool,
    pub load_state: bool,
    pub convert_value: bool,
    pub set_render_mode: bool,
    pub poll: bool,
}

/// What the processing loop does next.
#[derive(Clone, Copy, PartialEq, Eq, Structural, Debug)]
pub enum FuzzerAction {
    /// All blocks are processed: the run succeeded.
    Finished,
    /// Leave the audio thread, handle the plugin's callbacks and set up processing again.
    Reinitialize,
    /// Process one block as planned.
    Process(BlockPlan),
}

/// One step of the processing loop. With no blocks left the run is finished. A pending
/// restart leaves the audio thread with the state unchanged. Otherwise one block is processed:
/// its size is the drawn one, the quiet section toggles as drawn, port activity is redrawn
/// only where the plugin allows it while processing, state is saved or loaded only where the
/// host offers state, a parameter conversion is tested only where there are parameters, and
/// one block fewer is left.
pub open spec fn spec_fuzzer_step(setup: RunSetup, state: FuzzerState, event: FuzzerEvent) -> (
    FuzzerState,
    FuzzerAction,
) {
    if state.blocks_left == 0 {
        (state, FuzzerAction::Finished)
    } else {
        match event {
            FuzzerEvent::RestartRequested => (state, FuzzerAction::Reinitialize),
            FuzzerEvent::Block(d) => {
                let num_samples = match d.size {
                    BlockSizeDraw::InRange(n) => n,
                    BlockSizeDraw::Largest => setup.max_buffer_size,
                    BlockSizeDraw::Smallest => setup.min_buffer_size,
                };
                let quiet = if d.toggle_quiet {
                    !state.is_quiet
                } else {
                    state.is_quiet
                };
                (
                    FuzzerState { blocks_left: (state.blocks_left - 1) as u32, is_quiet: quiet },
                    FuzzerAction::Process(
                        BlockPlan {
                            num_samples,
                            redraw_activity: setup.can_activate_while_processing
                                && d.redraw_activity,
                            reset: d.reset,
                            deactivate: d.deactivate,
                            quiet,
                            save_state: d.save_state && setup.has_state_extension,
                            load_state: d.load_state && setup.has_state_extension,
                            convert_value: d.convert_value && setup.has_params,
                            set_render_mode: d.set_render_mode,
                            poll: d.poll,
                        },
                    ),
                )
            },
        }
    }
}

/// Decide the next step of the processing loop.
pub fn fuzzer_step(setup: RunSetup, state: FuzzerState, event: FuzzerEvent) -> (r: (
    FuzzerState,
    FuzzerAction,
))
    ensures
        r == spec_fuzzer_step(setup, state, event),
{
    if state.blocks_left == 0 {
        return (state, FuzzerAction::Finished);
    }
    match event {
        FuzzerEvent::RestartRequested => (state, FuzzerAction::Reinitialize),
        FuzzerEvent::Block(d) => {
            let num_samples = match d.size {
                BlockSizeDraw::InRange(n) => n,
                BlockSizeDraw::Largest => setup.max_buffer_size,
                BlockSizeDraw::Smallest => setup.min_buffer_size,
            };
            let quiet = if d.toggle_quiet {
                !state.is_quiet
            } else {
                state.is_quiet
            };
            (
                FuzzerState { blocks_left: state.blocks_left - 1, is_quiet: quiet },
                FuzzerAction::Process(
                    BlockPlan {
                        num_samples,
                        redraw_activity: setup.can_activate_while_processing && d.redraw_activity,
                        reset: d.reset,
                        deactivate: d.deactivate,
                        quiet,
                        save_state: d.save_state && setup.has_state_extension,
                        load_state: d.load_state && setup.has_state_extension,
                        convert_value: d.convert_value && setup.has_params,
                        set_render_mode: d.set_render_mode,
                        poll: d.poll,
                    },
                ),
            )
        },
    }
}

/// Whether the input at each index is fed silence in a block: every input in a quiet block,
/// otherwise the inactive ones.
pub fn silenced_inputs(quiet: bool, inputs_active: &Vec<bool>) -> (r: Vec<bool>)
    ensures
        r@.len() == inputs_active@.len(),
        forall|i: int| 0 <= i < r@.len() ==> #[trigger] r@[i] == (quiet || !inputs_active@[i]),
{
    let mut r: Vec<bool> = Vec::new();
    let mut i: usize = 0;
    while i < inputs_active.len()
        invariant
            i <= inputs_active@.len(),
            r@.len() == i,
            forall|j: int| 0 <= j < i ==> #[trigger] r@[j] == (quiet || !inputs_active@[j]),
        decreases inputs_active.len() - i,
    {
        r.push(quiet || !inputs_active[i]);
        i = i + 1;
    }
    r
}

/// Every step with blocks left either leaves the state unchanged (to reinitialize) or
/// processes exactly one block; a run that keeps processing finishes after as many blocks as it
/// started with.
pub proof fn lemma_step_consumes_one_block(setup: RunSetup, state: FuzzerState, event: FuzzerEvent)
    ensures
        state.blocks_left == 0 ==> spec_fuzzer_step(setup, state, event) == (
            state,
            FuzzerAction::Finished,
        ),
        state.blocks_left > 0 ==> match spec_fuzzer_step(setup, state, event).1 {
            FuzzerAction::Process(_) => spec_fuzzer_step(setup, state, event).0.blocks_left
                == state.blocks_left - 1,
            FuzzerAction::Reinitialize => spec_fuzzer_step(setup, state, event).0 == state,
            FuzzerAction::Finished => false,
        },
{
}

/// The state after processing a block for each of the given draws, with no restart between.
pub open spec fn run_blocks(setup: RunSetup, state: FuzzerState, draws: Seq<BlockDraws>) -> FuzzerState
    decreases draws.len(),
{
    if draws.len() == 0 {
        state
    } else {
        run_blocks(
            setup,
            spec_fuzzer_step(setup, state, FuzzerEvent::Block(draws[0])).0,
            draws.drop_first(),
        )
    }
}

/// Without restarts, a configuration is done after exactly as many blocks as it was given:
/// the next step then finishes the run.
pub proof fn lemma_run_finishes(setup: RunSetup, state: FuzzerState, draws: Seq<BlockDraws>, next: FuzzerEvent)
    requires
        draws.len() == state.blocks_left,
    ensures
        run_blocks(setup, state, draws).blocks_left == 0,
        spec_fuzzer_step(setup, run_blocks(setup, state, draws), next).1 == FuzzerAction::Finished,
    decreases draws.len(),
{
    if draws.len() > 0 {
        lemma_run_finishes(
            setup,
            spec_fuzzer_step(setup, state, FuzzerEvent::Block(draws[0])).0,
            draws.drop_first(),
            next,
        );
    }
}

} // verus!
