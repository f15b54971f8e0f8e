//! How the host answers the plugin's callbacks: which extensions it offers, and what each
//! callback checks and asks the main thread to do.

use crate::host::PluginStatus;
use crate::preset::{LocationError, LocationValue};
use crate::text::{RawText, TextError, mandatory_string, optional_string, spec_mandatory_string, spec_optional_string};
use vstd::prelude::*;

verus! {

/// What the host offers to the plugin.
#[derive(Clone, Copy, PartialEq, Eq, Structural, Debug)]
pub struct HostCapabilities {
    pub has_tail_extension: bool,
    pub has_latency_extension: bool,
    pub has_state_extension: bool,
    pub has_params_extension: bool,
    pub has_audio_ports_extension: bool,
    pub has_note_ports_extension: bool,
    pub has_thread_pool_extension: bool,
    pub supports_clap_dialect: bool,
    pub supports_midi_dialect: bool,
    pub can_rescan_audio_ports: bool,
}

impl Default for HostCapabilities {
    /// All extensions and dialects, but no rescanning of audio ports.
    fn default() -> (r: HostCapabilities)
        ensures
            r == (HostCapabilities {
                has_tail_extension: true,
                has_latency_extension: true,
                has_state_extension: true,
                has_params_extension: true,
                has_audio_ports_extension: true,
                has_note_ports_extension: true,
                has_thread_pool_extension: true,
                supports_clap_dialect: true,
                supports_midi_dialect: true,
                can_rescan_audio_ports: false,
            }),
    {
        HostCapabilities {
            has_tail_extension: true,
            has_latency_extension: true,
            has_state_extension: true,
            has_params_extension: true,
            has_audio_ports_extension: true,
            has_note_ports_extension: true,
            has_thread_pool_extension: true,
            supports_clap_dialect: true,
            supports_midi_dialect: true,
            can_rescan_audio_ports: false,
        }
    }
}

/// The host extensions.
#[derive(Clone, Copy, PartialEq, Eq, Structural, Debug)]
pub enum HostExtension {
    AudioPorts,
    NotePorts,
    PresetLoad,
    Params,
    State,
    ThreadCheck,
    ThreadPool,
    Log,
    Latency,
    Tail,
    VoiceInfo,
    AudioPortsConfig,
}

/// The ID bytes of an extension.
pub open spec fn extension_id(e: HostExtension) -> Seq<u8> {
    match e {
        HostExtension::AudioPorts => seq![99u8, 108u8, 97u8, 112u8, 46u8, 97u8, 117u8, 100u8, 105u8, 111u8, 45u8, 112u8, 111u8, 114u8, 116u8, 115u8],
        HostExtension::NotePorts => seq![99u8, 108u8, 97u8, 112u8, 46u8, 110u8, 111u8, 116u8, 101u8, 45u8, 112u8, 111u8, 114u8, 116u8, 115u8],
        HostExtension::PresetLoad => seq![99u8, 108u8, 97u8, 112u8, 46u8, 112u8, 114u8, 101u8, 115u8, 101u8, 116u8, 45u8, 108u8, 111u8, 97u8, 100u8, 47u8, 50u8],
        HostExtension::Params => seq![99u8, 108u8, 97u8, 112u8, 46u8, 112u8, 97u8, 114u8, 97u8, 109u8, 115u8],
        HostExtension::State => seq![99u8, 108u8, 97u8, 112u8, 46u8, 115u8, 116u8, 97u8, 116u8, 101u8],
        HostExtension::ThreadCheck => seq![99u8, 108u8, 97u8, 112u8, 46u8, 116u8, 104u8, 114u8, 101u8, 97u8, 100u8, 45u8, 99u8, 104u8, 101u8, 99u8, 107u8],
        HostExtension::ThreadPool => seq![99u8, 108u8, 97u8, 112u8, 46u8, 116u8, 104u8, 114u8, 101u8, 97u8, 100u8, 45u8, 112u8, 111u8, 111u8, 108u8],
        HostExtension::Log => seq![99u8, 108u8, 97u8, 112u8, 46u8, 108u8, 111u8, 103u8],
        HostExtension::Latency => seq![99u8, 108u8, 97u8, 112u8, 46u8, 108u8, 97u8, 116u8, 101u8, 110u8, 99u8, 121u8],
        HostExtension::Tail => seq![99u8, 108u8, 97u8, 112u8, 46u8, 116u8, 97u8, 105u8, 108u8],
        HostExtension::VoiceInfo => seq![99u8, 108u8, 97u8, 112u8, 46u8, 118u8, 111u8, 105u8, 99u8, 101u8, 45u8, 105u8, 110u8, 102u8, 111u8],
        HostExtension::AudioPortsConfig => seq![99u8, 108u8, 97u8, 112u8, 46u8, 97u8, 117u8, 100u8, 105u8, 111u8, 45u8, 112u8, 111u8, 114u8, 116u8, 115u8, 45u8, 99u8, 111u8, 110u8, 102u8, 105u8, 103u8],
    }
}

/// Whether the host offers an extension with these capabilities.
pub open spec fn offered(e: HostExtension, caps: HostCapabilities) -> bool {
    match e {
        HostExtension::AudioPorts => caps.has_audio_ports_extension,
        HostExtension::NotePorts => caps.has_note_ports_extension,
        HostExtension::PresetLoad => true,
        HostExtension::Params => caps.has_params_extension,
        HostExtension::State => caps.has_state_extension,
        HostExtension::ThreadCheck => true,
        HostExtension::ThreadPool => caps.has_thread_pool_extension,
        HostExtension::Log => true,
        HostExtension::Latency => caps.has_latency_extension,
        HostExtension::Tail => caps.has_tail_extension,
        HostExtension::VoiceInfo => true,
        HostExtension::AudioPortsConfig => true,
    }
}

/// The extension the host hands out for an ID, if it offers one.
pub open spec fn spec_host_extension(id: Seq<u8>, caps: HostCapabilities) -> Option<HostExtension> {
    if id == extension_id(HostExtension::AudioPorts) && offered(HostExtension::AudioPorts, caps) {
        Some(HostExtension::AudioPorts)
    } else if id == extension_id(HostExtension::NotePorts) && offered(HostExtension::NotePorts, caps) {
        Some(HostExtension::NotePorts)
    } else if id == extension_id(HostExtension::PresetLoad) && offered(HostExtension::PresetLoad, caps) {
        Some(HostExtension::PresetLoad)
    } else if id == extension_id(HostExtension::Params) && offered(HostExtension::Params, caps) {
        Some(HostExtension::Params)
    } else if id == extension_id(HostExtension::State) && offered(HostExtension::State, caps) {
        Some(HostExtension::State)
    } else if id == extension_id(HostExtension::ThreadCheck) && offered(HostExtension::ThreadCheck, caps) {
        Some(HostExtension::ThreadCheck)
    } else if id == extension_id(HostExtension::ThreadPool) && offered(HostExtension::ThreadPool, caps) {
        Some(HostExtension::ThreadPool)
    } else if id == extension_id(HostExtension::Log) && offered(HostExtension::Log, caps) {
        Some(HostExtension::Log)
    } else if id == extension_id(HostExtension::Latency) && offered(HostExtension::Latency, caps) {
        Some(HostExtension::Latency)
    } else if id == extension_id(HostExtension::Tail) && offered(HostExtension::Tail, caps) {
        Some(HostExtension::Tail)
    } else if id == extension_id(HostExtension::VoiceInfo) && offered(HostExtension::VoiceInfo, caps) {
        Some(HostExtension::VoiceInfo)
    } else if id == extension_id(HostExtension::AudioPortsConfig) && offered(HostExtension::AudioPortsConfig, caps) {
        Some(HostExtension::AudioPortsConfig)
    } else {
        None
    }
}

/// Whether two byte sequences are equal.
fn bytes_equal(a: &[u8], b: &Vec<u8>) -> (r: bool)
    ensures
        r == (a@ == b@),
{
    if a.len() != b.len() {
        return false;
    }
    let mut i: usize = 0;
    while i < a.len()
        invariant
            a@.len() == b@.len(),
            i <= a@.len(),
            forall|j: int| 0 <= j < i ==> a@[j] == b@[j],
        decreases a.len() - i,
    {
        if a[i] != b[i] {
            return false;
        }
        i = i + 1;
    }
    assert(a@ =~= b@);
    true
}

/// Whether the host offers an extension with these capabilities.
fn offered_exec(e: HostExtension, caps: HostCapabilities) -> (r: bool)
    ensures
        r == offered(e, caps),
{
    match e {
        HostExtension::AudioPorts => caps.has_audio_ports_extension,
        HostExtension::NotePorts => caps.has_note_ports_extension,
        HostExtension::PresetLoad => true,
        HostExtension::Params => caps.has_params_extension,
        HostExtension::State => caps.has_state_extension,
        HostExtension::ThreadCheck => true,
        HostExtension::ThreadPool => caps.has_thread_pool_extension,
        HostExtension::Log => true,
        HostExtension::Latency => caps.has_latency_extension,
        HostExtension::Tail => caps.has_tail_extension,
        HostExtension::VoiceInfo => true,
        HostExtension::AudioPortsConfig => true,
    }
}

/// The extension the host hands out for an ID (the bytes of a C string), if it offers one.
pub fn host_extension(id: &[u8], caps: HostCapabilities) -> (r: Option<HostExtension>)
    ensures
        r == spec_host_extension(id@, caps),
{
    let table: Vec<(Vec<u8>, HostExtension)> = vec![
        (vec![99u8, 108u8, 97u8, 112u8, 46u8, 97u8, 117u8, 100u8, 105u8, 111u8, 45u8, 112u8, 111u8, 114u8, 116u8, 115u8], HostExtension::AudioPorts),
        (vec![99u8, 108u8, 97u8, 112u8, 46u8, 110u8, 111u8, 116u8, 101u8, 45u8, 112u8, 111u8, 114u8, 116u8, 115u8], HostExtension::NotePorts),
        (vec![99u8, 108u8, 97u8, 112u8, 46u8, 112u8, 114u8, 101u8, 115u8, 101u8, 116u8, 45u8, 108u8, 111u8, 97u8, 100u8, 47u8, 50u8], HostExtension::PresetLoad),
        (vec![99u8, 108u8, 97u8, 112u8, 46u8, 112u8, 97u8, 114u8, 97u8, 109u8, 115u8], HostExtension::Params),
        (vec![99u8, 108u8, 97u8, 112u8, 46u8, 115u8, 116u8, 97u8, 116u8, 101u8], HostExtension::State),
        (vec![99u8, 108u8, 97u8, 112u8, 46u8, 116u8, 104u8, 114u8, 101u8, 97u8, 100u8, 45u8, 99u8, 104u8, 101u8, 99u8, 107u8], HostExtension::ThreadCheck),
        (vec![99u8, 108u8, 97u8, 112u8, 46u8, 116u8, 104u8, 114u8, 101u8, 97u8, 100u8, 45u8, 112u8, 111u8, 111u8, 108u8], HostExtension::ThreadPool),
        (vec![99u8, 108u8, 97u8, 112u8, 46u8, 108u8, 111u8, 103u8], HostExtension::Log),
        (vec![99u8, 108u8, 97u8, 112u8, 46u8, 108u8, 97u8, 116u8, 101u8, 110u8, 99u8, 121u8], HostExtension::Latency),
        (vec![99u8, 108u8, 97u8, 112u8, 46u8, 116u8, 97u8, 105u8, 108u8], HostExtension::Tail),
        (vec![99u8, 108u8, 97u8, 112u8, 46u8, 118u8, 111u8, 105u8, 99u8, 101u8, 45u8, 105u8, 110u8, 102u8, 111u8], HostExtension::VoiceInfo),
        (vec![99u8, 108u8, 97u8, 112u8, 46u8, 97u8, 117u8, 100u8, 105u8, 111u8, 45u8, 112u8, 111u8, 114u8, 116u8, 115u8, 45u8, 99u8, 111u8, 110u8, 102u8, 105u8, 103u8], HostExtension::AudioPortsConfig),
    ];
    proof {
        assert(table@[0].0@ =~= extension_id(HostExtension::AudioPorts));
        assert(table@[1].0@ =~= extension_id(HostExtension::NotePorts));
        assert(table@[2].0@ =~= extension_id(HostExtension::PresetLoad));
        assert(table@[3].0@ =~= extension_id(HostExtension::Params));
        assert(table@[4].0@ =~= extension_id(HostExtension::State));
        assert(table@[5].0@ =~= extension_id(HostExtension::ThreadCheck));
        assert(table@[6].0@ =~= extension_id(HostExtension::ThreadPool));
        assert(table@[7].0@ =~= extension_id(HostExtension::Log));
        assert(table@[8].0@ =~= extension_id(HostExtension::Latency));
        assert(table@[9].0@ =~= extension_id(HostExtension::Tail));
        assert(table@[10].0@ =~= extension_id(HostExtension::VoiceInfo));
        assert(table@[11].0@ =~= extension_id(HostExtension::AudioPortsConfig));
    }
    let mut i: usize = 0;
    while i < table.len()
        invariant
            table@.len() == 12,
            i <= table@.len(),
            forall|k: int| 0 <= k < 12 ==> (#[trigger] table@[k]).0@ == extension_id(table@[k].1),
            forall|k: int|
                0 <= k < i ==> !((#[trigger] table@[k]).0@ == id@ && offered(table@[k].1, caps)),
            table@[0].1 == HostExtension::AudioPorts,
            table@[1].1 == HostExtension::NotePorts,
            table@[2].1 == HostExtension::PresetLoad,
            table@[3].1 == HostExtension::Params,
            table@[4].1 == HostExtension::State,
            table@[5].1 == HostExtension::ThreadCheck,
            table@[6].1 == HostExtension::ThreadPool,
            table@[7].1 == HostExtension::Log,
            table@[8].1 == HostExtension::Latency,
            table@[9].1 == HostExtension::Tail,
            table@[10].1 == HostExtension::VoiceInfo,
            table@[11].1 == HostExtension::AudioPortsConfig,
        decreases table.len() - i,
    {
        if bytes_equal(id, &table[i].0) && offered_exec(table[i].1, caps) {
            return Some(table[i].1);
        }
        i = i + 1;
    }
    None
}

/// Audio ports rescan flag: port names.
pub const CLAP_AUDIO_PORTS_RESCAN_NAMES: u32 = 1;
/// Audio ports rescan flag: port flags.
pub const CLAP_AUDIO_PORTS_RESCAN_FLAGS: u32 = 2;
/// Audio ports rescan flag: channel counts.
pub const CLAP_AUDIO_PORTS_RESCAN_CHANNEL_COUNT: u32 = 4;
/// Audio ports rescan flag: port types.
pub const CLAP_AUDIO_PORTS_RESCAN_PORT_TYPE: u32 = 8;
/// Audio ports rescan flag: in-place pairs.
pub const CLAP_AUDIO_PORTS_RESCAN_IN_PLACE_PAIR: u32 = 16;
/// Audio ports rescan flag: the list of ports.
pub const CLAP_AUDIO_PORTS_RESCAN_LIST: u32 = 32;
/// Note ports rescan flag: everything.
pub const CLAP_NOTE_PORTS_RESCAN_ALL: u32 = 1;
/// Note ports rescan flag: port names.
pub const CLAP_NOTE_PORTS_RESCAN_NAMES: u32 = 2;
/// Params rescan flag: values.
pub const CLAP_PARAM_RESCAN_VALUES: u32 = 1;
/// Params rescan flag: text.
pub const CLAP_PARAM_RESCAN_TEXT: u32 = 2;
/// Params rescan flag: info.
pub const CLAP_PARAM_RESCAN_INFO: u32 = 4;
/// Params rescan flag: everything.
pub const CLAP_PARAM_RESCAN_ALL: u32 = 8;

/// Work a callback hands to the main thread.
#[derive(Clone, Copy, PartialEq, Eq, Structural, Debug)]
pub enum CallbackEvent {
    RequestProcess,
    AudioPortsRescanNames,
    AudioPortsRescanInfo,
    AudioPortsRescanList,
    AudioPortsConfigRescan,
    NotePortsRescanNames,
    NotePortsRescanAll,
    ParamsRescanValues,
    ParamsRescanText,
    ParamsRescanInfo,
    ParamsRescanAll,
    RequestFlush,
    StateMarkDirty,
    LatencyChanged,
    TailChanged,
    VoiceInfoChanged,
}

/// What went wrong in a host callback.
#[derive(Clone, Copy, PartialEq, Eq, Structural, Debug)]
pub enum CallbackFault {
    /// A main-thread function called from another thread.
    NotMainThread,
    /// An audio-thread function called from the main thread.
    AudioFunctionOnMainThread,
    /// An audio-thread function called from an unknown thread.
    AudioFunctionOnUnknownThread,
    /// A function audio threads may not call, called from one.
    CalledFromAudioThread,
    /// Called while the plugin is uninitialized.
    Uninitialized,
    /// The plugin does not implement the extension the callback belongs to.
    MissingExtension,
    /// An audio ports rescan although the host said it does not support rescanning.
    RescanUnsupported,
    /// A rescan that needs the plugin to be inactive, while it is processing.
    WhileActive,
    /// `clap_host_latency::changed()` outside of `clap_plugin::activate()`.
    NotActivating,
    /// `clap_host_thread_pool::request_exec()` outside of `clap_plugin::process()`.
    NotInProcess,
    /// `clap_host::get_extension()` with a null ID.
    NullExtensionId,
}

/// Where a callback was made from, and the plugin's state at the time.
#[derive(Clone, Copy, PartialEq, Eq, Structural, Debug)]
pub struct CallContext {
    pub on_main_thread: bool,
    pub on_audio_thread: bool,
    pub status: PluginStatus,
}

/// Whether the plugin may rescan: not while processing.
pub open spec fn may_rescan(status: PluginStatus) -> bool {
    status.spec_rank() <= PluginStatus::Activated.spec_rank()
}

/// The first check of a main-thread callback that belongs to an extension: the thread, then
/// that the plugin is initialized and implements the extension.
pub open spec fn main_thread_check(ctx: CallContext, has_extension: bool) -> Result<(), CallbackFault> {
    if !ctx.on_main_thread {
        Err(CallbackFault::NotMainThread)
    } else if ctx.status == PluginStatus::Uninitialized {
        Err(CallbackFault::Uninitialized)
    } else if !has_extension {
        Err(CallbackFault::MissingExtension)
    } else {
        Ok(())
    }
}

/// The same for an audio-thread callback.
pub open spec fn audio_thread_check(ctx: CallContext, has_extension: bool) -> Result<(), CallbackFault> {
    if !ctx.on_audio_thread {
        if ctx.on_main_thread {
            Err(CallbackFault::AudioFunctionOnMainThread)
        } else {
            Err(CallbackFault::AudioFunctionOnUnknownThread)
        }
    } else if ctx.status == PluginStatus::Uninitialized {
        Err(CallbackFault::Uninitialized)
    } else if !has_extension {
        Err(CallbackFault::MissingExtension)
    } else {
        Ok(())
    }
}

/// The same for a callback that may be made from any thread but an audio thread.
pub open spec fn not_audio_thread_check(ctx: CallContext, has_extension: bool) -> Result<(), CallbackFault> {
    if ctx.on_audio_thread {
        Err(CallbackFault::CalledFromAudioThread)
    } else if ctx.status == PluginStatus::Uninitialized {
        Err(CallbackFault::Uninitialized)
    } else if !has_extension {
        Err(CallbackFault::MissingExtension)
    } else {
        Ok(())
    }
}

/// A main-thread callback passes its first check exactly when it comes from the main thread
/// of an initialized plugin that implements the extension; an audio-thread callback exactly when
/// it comes from the audio thread under the same conditions; and a callback for any thread but
/// an audio thread exactly when it does not come from an audio thread. A call from the wrong
/// thread is refused whatever the plugin's state.
pub proof fn lemma_thread_checks(ctx: CallContext, has_extension: bool)
    ensures
        main_thread_check(ctx, has_extension) is Ok <==> (ctx.on_main_thread && ctx.status
            != PluginStatus::Uninitialized && has_extension),
        audio_thread_check(ctx, has_extension) is Ok <==> (ctx.on_audio_thread && ctx.status
            != PluginStatus::Uninitialized && has_extension),
        not_audio_thread_check(ctx, has_extension) is Ok <==> (!ctx.on_audio_thread && ctx.status
            != PluginStatus::Uninitialized && has_extension),
        !ctx.on_main_thread ==> main_thread_check(ctx, has_extension) == Err::<(), CallbackFault>(
            CallbackFault::NotMainThread,
        ),
        ctx.on_audio_thread ==> not_audio_thread_check(ctx, has_extension) == Err::<(), CallbackFault>(
            CallbackFault::CalledFromAudioThread,
        ),
        ctx.on_main_thread && !ctx.on_audio_thread ==> audio_thread_check(ctx, has_extension)
            == Err::<(), CallbackFault>(CallbackFault::AudioFunctionOnMainThread),
{
}

fn check_main_thread(ctx: CallContext, has_extension: bool) -> (r: Result<(), CallbackFault>)
    ensures
        r == main_thread_check(ctx, has_extension),
{
    if !ctx.on_main_thread {
        Err(CallbackFault::NotMainThread)
    } else if ctx.status == PluginStatus::Uninitialized {
        Err(CallbackFault::Uninitialized)
    } else if !has_extension {
        Err(CallbackFault::MissingExtension)
    } else {
        Ok(())
    }
}

fn check_audio_thread(ctx: CallContext, has_extension: bool) -> (r: Result<(), CallbackFault>)
    ensures
        r == audio_thread_check(ctx, has_extension),
{
    if !ctx.on_audio_thread {
        if ctx.on_main_thread {
            Err(CallbackFault::AudioFunctionOnMainThread)
        } else {
            Err(CallbackFault::AudioFunctionOnUnknownThread)
        }
    } else if ctx.status == PluginStatus::Uninitialized {
        Err(CallbackFault::Uninitialized)
    } else if !has_extension {
        Err(CallbackFault::MissingExtension)
    } else {
        Ok(())
    }
}

fn check_not_audio_thread(ctx: CallContext, has_extension: bool) -> (r: Result<(), CallbackFault>)
    ensures
        r == not_audio_thread_check(ctx, has_extension),
{
    if ctx.on_audio_thread {
        Err(CallbackFault::CalledFromAudioThread)
    } else if ctx.status == PluginStatus::Uninitialized {
        Err(CallbackFault::Uninitialized)
    } else if !has_extension {
        Err(CallbackFault::MissingExtension)
    } else {
        Ok(())
    }
}

/// What a callback hands to the main thread, in order, and how it ended. Work handed over before
/// a failing check stays handed over.
pub struct CallbackOutcome {
    pub events: Vec<CallbackEvent>,
    pub result: Result<(), CallbackFault>,
}

/// What `clap_host::get_extension()` decides: the extension handed out, or the fault for a null
/// ID.
pub fn get_extension(id: Option<&[u8]>, caps: HostCapabilities) -> (r: Result<Option<HostExtension>, CallbackFault>)
    ensures
        match id {
            None => r == Err::<Option<HostExtension>, CallbackFault>(CallbackFault::NullExtensionId),
            Some(i) => r == Ok::<Option<HostExtension>, CallbackFault>(spec_host_extension(i@, caps)),
        },
{
    match id {
        None => Err(CallbackFault::NullExtensionId),
        Some(i) => Ok(host_extension(i, caps)),
    }
}

/// Whether the host supports an audio ports rescan flag: as far as its capabilities say.
pub fn audio_ports_is_rescan_flag_supported(ctx: CallContext, has_extension: bool, caps: HostCapabilities) -> (r: Result<bool, CallbackFault>)
    ensures
        match main_thread_check(ctx, has_extension) {
            Err(f) => r == Err::<bool, CallbackFault>(f),
            Ok(_) => r == Ok::<bool, CallbackFault>(caps.can_rescan_audio_ports),
        },
{
    check_main_thread(ctx, has_extension)?;
    Ok(caps.can_rescan_audio_ports)
}

/// The events of an audio ports rescan with `flags`, and its outcome.
pub open spec fn spec_audio_ports_rescan(ctx: CallContext, has_extension: bool, caps: HostCapabilities, flags: u32) -> (Seq<CallbackEvent>, Result<(), CallbackFault>) {
    let names: Seq<CallbackEvent> = if flags & CLAP_AUDIO_PORTS_RESCAN_NAMES != 0 {
        seq![CallbackEvent::AudioPortsRescanNames]
    } else {
        Seq::empty()
    };
    let info = flags & (CLAP_AUDIO_PORTS_RESCAN_FLAGS | CLAP_AUDIO_PORTS_RESCAN_CHANNEL_COUNT
        | CLAP_AUDIO_PORTS_RESCAN_PORT_TYPE | CLAP_AUDIO_PORTS_RESCAN_IN_PLACE_PAIR) != 0;
    let list = flags & CLAP_AUDIO_PORTS_RESCAN_LIST != 0;
    match main_thread_check(ctx, has_extension) {
        Err(f) => (Seq::empty(), Err(f)),
        Ok(_) => if !caps.can_rescan_audio_ports {
            (Seq::empty(), Err(CallbackFault::RescanUnsupported))
        } else if info && !may_rescan(ctx.status) {
            (names, Err(CallbackFault::WhileActive))
        } else {
            let with_info = if info {
                names.push(CallbackEvent::AudioPortsRescanInfo)
            } else {
                names
            };
            if list && !may_rescan(ctx.status) {
                (with_info, Err(CallbackFault::WhileActive))
            } else if list {
                (with_info.push(CallbackEvent::AudioPortsRescanList), Ok(()))
            } else {
                (with_info, Ok(()))
            }
        },
    }
}

/// `clap_host_audio_ports::rescan()`: names can always be rescanned; the rest only while the
/// plugin is not processing, and only when the host said it supports rescanning.
pub fn audio_ports_rescan(ctx: CallContext, has_extension: bool, caps: HostCapabilities, flags: u32) -> (r: CallbackOutcome)
    ensures
        (r.events@, r.result) == spec_audio_ports_rescan(ctx, has_extension, caps, flags),
{
    let mut events: Vec<CallbackEvent> = Vec::new();
    match check_main_thread(ctx, has_extension) {
        Err(f) => return CallbackOutcome { events, result: Err(f) },
        Ok(_) => {},
    }
    if !caps.can_rescan_audio_ports {
        return CallbackOutcome { events, result: Err(CallbackFault::RescanUnsupported) };
    }
    let may = ctx.status.rank() <= PluginStatus::Activated.rank();
    if flags & CLAP_AUDIO_PORTS_RESCAN_NAMES != 0 {
        events.push(CallbackEvent::AudioPortsRescanNames);
    }
    if flags & (CLAP_AUDIO_PORTS_RESCAN_FLAGS | CLAP_AUDIO_PORTS_RESCAN_CHANNEL_COUNT
        | CLAP_AUDIO_PORTS_RESCAN_PORT_TYPE | CLAP_AUDIO_PORTS_RESCAN_IN_PLACE_PAIR) != 0 {
        if !may {
            return CallbackOutcome { events, result: Err(CallbackFault::WhileActive) };
        }
        events.push(CallbackEvent::AudioPortsRescanInfo);
    }
    if flags & CLAP_AUDIO_PORTS_RESCAN_LIST != 0 {
        if !may {
            return CallbackOutcome { events, result: Err(CallbackFault::WhileActive) };
        }
        events.push(CallbackEvent::AudioPortsRescanList);
    }
    let r = CallbackOutcome { events, result: Ok(()) };
    assert((r.events@, r.result) =~= spec_audio_ports_rescan(ctx, has_extension, caps, flags));
    r
}

/// The note dialects the host supports, as its capabilities say.
pub fn note_ports_supported_dialects(ctx: CallContext, has_extension: bool, caps: HostCapabilities) -> (r: Result<u32, CallbackFault>)
    ensures
        match main_thread_check(ctx, has_extension) {
            Err(f) => r == Err::<u32, CallbackFault>(f),
            Ok(_) => r == Ok::<u32, CallbackFault>(
                (if caps.supports_clap_dialect {
                    1u32
                } else {
                    0u32
                }) | (if caps.supports_midi_dialect {
                    6u32
                } else {
                    0u32
                }),
            ),
        },
{
    check_main_thread(ctx, has_extension)?;
    let clap: bool = caps.supports_clap_dialect;
    let midi: bool = caps.supports_midi_dialect;
    let mut flags: u32 = 0;
    if clap {
        flags = flags | 1;
    }
    if midi {
        flags = flags | 6;
    }
    assert(flags == (if clap { 1u32 } else { 0u32 }) | (if midi { 6u32 } else { 0u32 })) by (bit_vector)
        requires
            flags == (if midi {
                (if clap { 0u32 | 1u32 } else { 0u32 }) | 6u32
            } else {
                if clap { 0u32 | 1u32 } else { 0u32 }
            }),
    ;
    Ok(flags)
}

/// The events of a note ports rescan with `flags`, and its outcome.
pub open spec fn spec_note_ports_rescan(ctx: CallContext, has_extension: bool, flags: u32) -> (Seq<CallbackEvent>, Result<(), CallbackFault>) {
    let names: Seq<CallbackEvent> = if flags & CLAP_NOTE_PORTS_RESCAN_NAMES != 0 {
        seq![CallbackEvent::NotePortsRescanNames]
    } else {
        Seq::empty()
    };
    match main_thread_check(ctx, has_extension) {
        Err(f) => (Seq::empty(), Err(f)),
        Ok(_) => if flags & CLAP_NOTE_PORTS_RESCAN_ALL != 0 {
            if may_rescan(ctx.status) {
                (names.push(CallbackEvent::NotePortsRescanAll), Ok(()))
            } else {
                (names, Err(CallbackFault::WhileActive))
            }
        } else {
            (names, Ok(()))
        },
    }
}

/// `clap_host_note_ports::rescan()`: names can always be rescanned, everything only while the
/// plugin is not processing.
pub fn note_ports_rescan(ctx: CallContext, has_extension: bool, flags: u32) -> (r: CallbackOutcome)
    ensures
        (r.events@, r.result) == spec_note_ports_rescan(ctx, has_extension, flags),
{
    let mut events: Vec<CallbackEvent> = Vec::new();
    match check_main_thread(ctx, has_extension) {
        Err(f) => return CallbackOutcome { events, result: Err(f) },
        Ok(_) => {},
    }
    if flags & CLAP_NOTE_PORTS_RESCAN_NAMES != 0 {
        events.push(CallbackEvent::NotePortsRescanNames);
    }
    if flags & CLAP_NOTE_PORTS_RESCAN_ALL != 0 {
        if ctx.status.rank() > PluginStatus::Activated.rank() {
            return CallbackOutcome { events, result: Err(CallbackFault::WhileActive) };
        }
        events.push(CallbackEvent::NotePortsRescanAll);
    }
    let r = CallbackOutcome { events, result: Ok(()) };
    assert((r.events@, r.result) =~= spec_note_ports_rescan(ctx, has_extension, flags));
    r
}

/// The events of a parameter rescan with `flags`, and its outcome.
pub open spec fn spec_params_rescan(ctx: CallContext, has_extension: bool, flags: u32) -> (Seq<CallbackEvent>, Result<(), CallbackFault>) {
    let a: Seq<CallbackEvent> = if flags & CLAP_PARAM_RESCAN_VALUES != 0 {
        seq![CallbackEvent::ParamsRescanValues]
    } else {
        Seq::empty()
    };
    let b = if flags & CLAP_PARAM_RESCAN_TEXT != 0 {
        a.push(CallbackEvent::ParamsRescanText)
    } else {
        a
    };
    let c = if flags & CLAP_PARAM_RESCAN_INFO != 0 {
        b.push(CallbackEvent::ParamsRescanInfo)
    } else {
        b
    };
    match main_thread_check(ctx, has_extension) {
        Err(f) => (Seq::empty(), Err(f)),
        Ok(_) => if flags & CLAP_PARAM_RESCAN_ALL != 0 {
            if may_rescan(ctx.status) {
                (c.push(CallbackEvent::ParamsRescanAll), Ok(()))
            } else {
                (c, Err(CallbackFault::WhileActive))
            }
        } else {
            (c, Ok(()))
        },
    }
}

/// `clap_host_params::rescan()`: values, text and info can always be rescanned, everything only
/// while the plugin is not processing.
pub fn params_rescan(ctx: CallContext, has_extension: bool, flags: u32) -> (r: CallbackOutcome)
    ensures
        (r.events@, r.result) == spec_params_rescan(ctx, has_extension, flags),
{
    let mut events: Vec<CallbackEvent> = Vec::new();
    match check_main_thread(ctx, has_extension) {
        Err(f) => return CallbackOutcome { events, result: Err(f) },
        Ok(_) => {},
    }
    if flags & CLAP_PARAM_RESCAN_VALUES != 0 {
        events.push(CallbackEvent::ParamsRescanValues);
    }
    if flags & CLAP_PARAM_RESCAN_TEXT != 0 {
        events.push(CallbackEvent::ParamsRescanText);
    }
    if flags & CLAP_PARAM_RESCAN_INFO != 0 {
        events.push(CallbackEvent::ParamsRescanInfo);
    }
    if flags & CLAP_PARAM_RESCAN_ALL != 0 {
        if ctx.status.rank() > PluginStatus::Activated.rank() {
            return CallbackOutcome { events, result: Err(CallbackFault::WhileActive) };
        }
        events.push(CallbackEvent::ParamsRescanAll);
    }
    let r = CallbackOutcome { events, result: Ok(()) };
    assert((r.events@, r.result) =~= spec_params_rescan(ctx, has_extension, flags));
    r
}

/// The checks of a callback that hands one event to the main thread when they pass.
fn single_event(check: Result<(), CallbackFault>, event: CallbackEvent) -> (r: CallbackOutcome)
    ensures
        match check {
            Err(f) => r.events@ == Seq::<CallbackEvent>::empty() && r.result == Err::<(), CallbackFault>(f),
            Ok(_) => r.events@ == seq![event] && r.result is Ok,
        },
{
    match check {
        Err(f) => CallbackOutcome { events: Vec::new(), result: Err(f) },
        Ok(_) => {
            let mut events = Vec::new();
            events.push(event);
            assert(events@ =~= seq![event]);
            CallbackOutcome { events, result: Ok(()) }
        },
    }
}

/// `clap_host_params::clear()`: only checked.
pub fn params_clear(ctx: CallContext, has_extension: bool) -> (r: Result<(), CallbackFault>)
    ensures
        r == main_thread_check(ctx, has_extension),
{
    check_main_thread(ctx, has_extension)
}

/// `clap_host_params::request_flush()`: from any thread but an audio thread.
pub fn params_request_flush(ctx: CallContext, has_extension: bool) -> (r: CallbackOutcome)
    ensures
        match not_audio_thread_check(ctx, has_extension) {
            Err(f) => r.events@ == Seq::<CallbackEvent>::empty() && r.result == Err::<(), CallbackFault>(f),
            Ok(_) => r.events@ == seq![CallbackEvent::RequestFlush] && r.result is Ok,
        },
{
    single_event(check_not_audio_thread(ctx, has_extension), CallbackEvent::RequestFlush)
}

/// `clap_host_state::mark_dirty()`.
pub fn state_mark_dirty(ctx: CallContext, has_extension: bool) -> (r: CallbackOutcome)
    ensures
        match main_thread_check(ctx, has_extension) {
            Err(f) => r.events@ == Seq::<CallbackEvent>::empty() && r.result == Err::<(), CallbackFault>(f),
            Ok(_) => r.events@ == seq![CallbackEvent::StateMarkDirty] && r.result is Ok,
        },
{
    single_event(check_main_thread(ctx, has_extension), CallbackEvent::StateMarkDirty)
}

/// `clap_host_latency::changed()`: only while the plugin is being activated.
pub fn latency_changed(ctx: CallContext, has_extension: bool) -> (r: CallbackOutcome)
    ensures
        match main_thread_check(ctx, has_extension) {
            Err(f) => r.events@ == Seq::<CallbackEvent>::empty() && r.result == Err::<(), CallbackFault>(f),
            Ok(_) => if ctx.status == PluginStatus::Activating {
                r.events@ == seq![CallbackEvent::LatencyChanged] && r.result is Ok
            } else {
                r.events@ == Seq::<CallbackEvent>::empty() && r.result == Err::<(), CallbackFault>(
                    CallbackFault::NotActivating,
                )
            },
        },
{
    let check = match check_main_thread(ctx, has_extension) {
        Err(f) => Err(f),
        Ok(_) => if ctx.status == PluginStatus::Activating {
            Ok(())
        } else {
            Err(CallbackFault::NotActivating)
        },
    };
    single_event(check, CallbackEvent::LatencyChanged)
}

/// `clap_host_tail::changed()`: from the audio thread.
pub fn tail_changed(ctx: CallContext, has_extension: bool) -> (r: CallbackOutcome)
    ensures
        match audio_thread_check(ctx, has_extension) {
            Err(f) => r.events@ == Seq::<CallbackEvent>::empty() && r.result == Err::<(), CallbackFault>(f),
            Ok(_) => r.events@ == seq![CallbackEvent::TailChanged] && r.result is Ok,
        },
{
    single_event(check_audio_thread(ctx, has_extension), CallbackEvent::TailChanged)
}

/// `clap_host_voice_info::changed()`.
pub fn voice_info_changed(ctx: CallContext, has_extension: bool) -> (r: CallbackOutcome)
    ensures
        match main_thread_check(ctx, has_extension) {
            Err(f) => r.events@ == Seq::<CallbackEvent>::empty() && r.result == Err::<(), CallbackFault>(f),
            Ok(_) => r.events@ == seq![CallbackEvent::VoiceInfoChanged] && r.result is Ok,
        },
{
    single_event(check_main_thread(ctx, has_extension), CallbackEvent::VoiceInfoChanged)
}

/// `clap_host_audio_ports_config::rescan()`.
pub fn audio_ports_config_rescan(ctx: CallContext, has_extension: bool) -> (r: CallbackOutcome)
    ensures
        match main_thread_check(ctx, has_extension) {
            Err(f) => r.events@ == Seq::<CallbackEvent>::empty() && r.result == Err::<(), CallbackFault>(f),
            Ok(_) => r.events@ == seq![CallbackEvent::AudioPortsConfigRescan] && r.result is Ok,
        },
{
    single_event(check_main_thread(ctx, has_extension), CallbackEvent::AudioPortsConfigRescan)
}

/// `clap_host_thread_pool::request_exec()`: from the audio thread, inside a process call. When
/// it passes, the host runs the tasks and reports success.
pub fn thread_pool_request_exec(ctx: CallContext, has_extension: bool, in_process_call: bool) -> (r: Result<(), CallbackFault>)
    ensures
        match audio_thread_check(ctx, has_extension) {
            Err(f) => r == Err::<(), CallbackFault>(f),
            Ok(_) => if in_process_call {
                r is Ok
            } else {
                r == Err::<(), CallbackFault>(CallbackFault::NotInProcess)
            },
        },
{
    check_audio_thread(ctx, has_extension)?;
    if !in_process_call {
        return Err(CallbackFault::NotInProcess);
    }
    Ok(())
}

/// The first error a plugin made in its callbacks, if any.
pub struct FirstError<E> {
    first: Option<E>,
}

impl<E> FirstError<E> {
    /// The error kept, if any.
    pub closed spec fn spec_first(&self) -> Option<E> {
        self.first
    }

    /// No error yet.
    pub fn new() -> (r: FirstError<E>)
        ensures
            r.spec_first() is None,
    {
        FirstError { first: None }
    }

    /// Keep `error`, unless an earlier one is kept.
    pub fn record(&mut self, error: E)
        ensures
            final(self).spec_first() == if old(self).spec_first() is None {
                Some(error)
            } else {
                old(self).spec_first()
            },
    {
        if self.first.is_none() {
            self.first = Some(error);
        }
    }

    /// Hand out the kept error, if any, and forget it.
    pub fn take(&mut self) -> (r: Option<E>)
        ensures
            r == old(self).spec_first(),
            final(self).spec_first() is None,
    {
        let mut first = None;
        std::mem::swap(&mut first, &mut self.first);
        first
    }
}

/// What is wrong with a `clap_host_preset_load` callback's arguments, or the load error it
/// reports.
pub enum PresetLoadFault {
    /// The thread, initialization or extension check failed.
    Callback(CallbackFault),
    /// The location kind and string do not fit together.
    Location(LocationError),
    /// The load key is not valid UTF-8.
    LoadKey(TextError),
    /// The error message is missing, empty or not valid UTF-8.
    Message(TextError),
    /// The plugin reports that loading a preset failed.
    LoadError { location: LocationValue, load_key: Option<String>, os_error: i32, message: String },
}

/// The arguments of a preset load callback, in the order they are checked.
pub open spec fn preset_load_args(
    ctx: CallContext,
    has_extension: bool,
    kind: u32,
    location: RawText,
    load_key: RawText,
) -> Result<(LocationValue, Option<String>), PresetLoadFault> {
    match main_thread_check(ctx, has_extension) {
        Err(f) => Err(PresetLoadFault::Callback(f)),
        Ok(_) => match LocationValue::spec_new(kind, location) {
            Err(e) => Err(PresetLoadFault::Location(e)),
            Ok(l) => match spec_optional_string(load_key) {
                Err(e) => Err(PresetLoadFault::LoadKey(e)),
                Ok(k) => Ok((l, k)),
            },
        },
    }
}

fn check_preset_load_args(
    ctx: CallContext,
    has_extension: bool,
    kind: u32,
    location: RawText,
    load_key: RawText,
) -> (r: Result<(LocationValue, Option<String>), PresetLoadFault>)
    ensures
        r == preset_load_args(ctx, has_extension, kind, location, load_key),
{
    match check_main_thread(ctx, has_extension) {
        Err(f) => return Err(PresetLoadFault::Callback(f)),
        Ok(_) => {},
    }
    let l = match LocationValue::new(kind, location) {
        Err(e) => return Err(PresetLoadFault::Location(e)),
        Ok(l) => l,
    };
    match optional_string(load_key) {
        Err(e) => Err(PresetLoadFault::LoadKey(e)),
        Ok(k) => Ok((l, k)),
    }
}

/// `clap_host_preset_load::on_error()`: after checking its arguments, the reported load error
/// itself is the outcome, since a plugin that fails to load a preset fails the test.
pub fn preset_load_on_error(
    ctx: CallContext,
    has_extension: bool,
    kind: u32,
    location: RawText,
    load_key: RawText,
    os_error: i32,
    message: RawText,
) -> (r: PresetLoadFault)
    ensures
        match preset_load_args(ctx, has_extension, kind, location, load_key) {
            Err(f) => r == f,
            Ok((l, k)) => match spec_mandatory_string(message) {
                Err(e) => r == PresetLoadFault::Message(e),
                Ok(m) => r == (PresetLoadFault::LoadError { location: l, load_key: k, os_error, message: m }),
            },
        },
{
    let (l, k) = match check_preset_load_args(ctx, has_extension, kind, location, load_key) {
        Err(f) => return f,
        Ok(args) => args,
    };
    match mandatory_string(message) {
        Err(e) => PresetLoadFault::Message(e),
        Ok(m) => PresetLoadFault::LoadError { location: l, load_key: k, os_error, message: m },
    }
}

/// `clap_host_preset_load::loaded()`: only its arguments are checked.
pub fn preset_load_loaded(ctx: CallContext, has_extension: bool, kind: u32, location: RawText, load_key: RawText) -> (r:
    Result<(), PresetLoadFault>)
    ensures
        match preset_load_args(ctx, has_extension, kind, location, load_key) {
            Err(f) => r == Err::<(), PresetLoadFault>(f),
            Ok(_) => r is Ok,
        },
{
    match check_preset_load_args(ctx, has_extension, kind, location, load_key) {
        Err(f) => Err(f),
        Ok(_) => Ok(()),
    }
}

pub const CLAP_LOG_DEBUG: i32 = 0;
pub const CLAP_LOG_INFO: i32 = 1;
pub const CLAP_LOG_WARNING: i32 = 2;
pub const CLAP_LOG_ERROR: i32 = 3;
pub const CLAP_LOG_FATAL: i32 = 4;
pub const CLAP_LOG_HOST_MISBEHAVING: i32 = 5;
pub const CLAP_LOG_PLUGIN_MISBEHAVING: i32 = 6;

/// How loudly a plugin's log message is shown.
#[derive(Clone, Copy, PartialEq, Eq, Structural, Debug)]
pub enum LogLevel {
    Error,
    Warn,
    Info,
    Debug,
}

/// Where `clap_host_log::log()` routes a message of a given severity: its level, and the log
/// target naming the severity. Unknown severities are shown as debug output.
pub open spec fn spec_log_route(severity: i32) -> (LogLevel, Seq<char>) {
    if severity == CLAP_LOG_ERROR {
        (LogLevel::Error, "plugin::error"@)
    } else if severity == CLAP_LOG_FATAL {
        (LogLevel::Error, "plugin::fatal"@)
    } else if severity == CLAP_LOG_WARNING {
        (LogLevel::Warn, "plugin::warning"@)
    } else if severity == CLAP_LOG_INFO {
        (LogLevel::Info, "plugin::info"@)
    } else if severity == CLAP_LOG_DEBUG {
        (LogLevel::Debug, "plugin::debug"@)
    } else if severity == CLAP_LOG_HOST_MISBEHAVING {
        (LogLevel::Error, "plugin::host-misbehaving"@)
    } else if severity == CLAP_LOG_PLUGIN_MISBEHAVING {
        (LogLevel::Error, "plugin::plugin-misbehaving"@)
    } else {
        (LogLevel::Debug, "plugin"@)
    }
}

/// A plugin's log message is logged as an error for the CLAP severities error (3), fatal (4),
/// host misbehaving (5) and plugin misbehaving (6), as a warning for warning (2), as information
/// for info (1), and for debugging otherwise, including debug (0) and unknown severities.
pub proof fn lemma_log_levels(severity: i32)
    ensures
        spec_log_route(severity).0 == LogLevel::Error <==> 3 <= severity <= 6,
        spec_log_route(severity).0 == LogLevel::Warn <==> severity == 2,
        spec_log_route(severity).0 == LogLevel::Info <==> severity == 1,
        spec_log_route(severity).0 == LogLevel::Debug <==> (severity < 1 || severity > 6),
{
}

/// The level and target of a plugin's log message.
pub fn log_route(severity: i32) -> (r: (LogLevel, &'static str))
    ensures
        r.0 == spec_log_route(severity).0,
        r.1@ == spec_log_route(severity).1,
{
    if severity == CLAP_LOG_ERROR {
        (LogLevel::Error, "plugin::error")
    } else if severity == CLAP_LOG_FATAL {
        (LogLevel::Error, "plugin::fatal")
    } else if severity == CLAP_LOG_WARNING {
        (LogLevel::Warn, "plugin::warning")
    } else if severity == CLAP_LOG_INFO {
        (LogLevel::Info, "plugin::info")
    } else if severity == CLAP_LOG_DEBUG {
        (LogLevel::Debug, "plugin::debug")
    } else if severity == CLAP_LOG_HOST_MISBEHAVING {
        (LogLevel::Error, "plugin::host-misbehaving")
    } else if severity == CLAP_LOG_PLUGIN_MISBEHAVING {
        (LogLevel::Error, "plugin::plugin-misbehaving")
    } else {
        (LogLevel::Debug, "plugin")
    }
}

/// The text of a plugin's log message: the message, or a marker for a null or invalid one.
pub fn log_message(message: RawText) -> (r: String)
    ensures
        r@ == match message {
            RawText::Text(m) => m@,
            RawText::Null => "<null>"@,
            RawText::InvalidUtf8 => "<invalid utf-8>"@,
        },
{
    match message {
        RawText::Text(m) => m,
        RawText::Null => String::from_str("<null>"),
        RawText::InvalidUtf8 => String::from_str("<invalid utf-8>"),
    }
}

} // verus!
