//! Decisions of the fuzzer: which plugins to fuzz, how a chunk ended, and when to stop.

use crate::library::PluginLibraryMetadata;
use crate::panic::{PanicPayload, panic_message, spec_panic_message};
use crate::status::FuzzStatus;
use crate::text::{join_lines, join_with_newlines};
use crate::keyed::string_eq;
use crate::callbacks::CallbackEvent;
use vstd::prelude::*;

verus! {

/// The outcome of fuzzing one plugin with one seed.
pub struct FuzzResult {
    pub status: FuzzStatus,
    /// The path to the plugin library.
    pub library: String,
    pub plugin_id: String,
    pub seed: u64,
}

/// One fuzzing run of a plugin with a seed, possibly in a separate process.
pub struct SandboxedFuzzChunk {
    pub library: String,
    pub plugin_id: String,
    pub seed: u64,
}

/// How running the fuzzer on a chunk ended.
pub enum ChunkOutcome {
    /// The fuzzer finished with this status.
    Finished(FuzzStatus),
    /// The fuzzer returned an error, given as its chain of messages.
    Failed(Vec<String>),
    /// The fuzzer panicked.
    Panicked(PanicPayload),
}

impl SandboxedFuzzChunk {
    /// The status of the chunk from how running it ended: an error becomes a failure listing the
    /// error chain one message per line, a panic becomes a crash with the panic's message.
    pub fn run(&self, outcome: ChunkOutcome) -> (r: FuzzStatus)
        ensures
            match outcome {
                ChunkOutcome::Finished(s) => r == s,
                ChunkOutcome::Failed(chain) => r matches FuzzStatus::Failed { details }
                    && details@ == join_lines(chain@.map_values(|s: String| s@)),
                ChunkOutcome::Panicked(p) => r matches FuzzStatus::Crashed { details }
                    && details@ == spec_panic_message(p),
            },
    {
        match outcome {
            ChunkOutcome::Finished(s) => s,
            ChunkOutcome::Failed(chain) => FuzzStatus::Failed { details: join_with_newlines(&chain) },
            ChunkOutcome::Panicked(p) => FuzzStatus::Crashed { details: panic_message(&p) },
        }
    }
}

/// The plugins of the loaded libraries that should be fuzzed, as `(library, plugin ID)` pairs in
/// order: all of them, or those with the requested ID.
pub open spec fn spec_discover(libraries: Seq<(Seq<char>, Seq<Seq<char>>)>, plugin_id: Option<Seq<char>>) -> Seq<(Seq<char>, Seq<char>)>
    decreases libraries.len(),
{
    if libraries.len() == 0 {
        Seq::empty()
    } else {
        let last = libraries.last();
        spec_discover(libraries.drop_last(), plugin_id) + last.1.filter(
            |id: Seq<char>| plugin_id is None || plugin_id == Some(id),
        ).map_values(|id: Seq<char>| (last.0, id))
    }
}

/// The abstract value of loaded libraries: each path with its plugins' IDs.
pub open spec fn libraries_view(libraries: Seq<(String, PluginLibraryMetadata)>) -> Seq<(Seq<char>, Seq<Seq<char>>)> {
    libraries.map_values(
        |l: (String, PluginLibraryMetadata)|
            (l.0@, l.1.plugins@.map_values(|p: crate::library::PluginMetadata| p.id@)),
    )
}

/// Select the plugins to fuzz from the loaded libraries.
pub fn discover(libraries: &Vec<(String, PluginLibraryMetadata)>, plugin_id: Option<&str>) -> (r: Vec<(String, String)>)
    ensures
        r@.map_values(|p: (String, String)| (p.0@, p.1@)) == spec_discover(
            libraries_view(libraries@),
            match plugin_id {
                Some(id) => Some(id@),
                None => None,
            },
        ),
{
    let ghost want = match plugin_id {
        Some(id) => Some(id@),
        None => None,
    };
    let ghost lv = libraries_view(libraries@);
    let mut result: Vec<(String, String)> = Vec::new();
    let mut i: usize = 0;
    while i < libraries.len()
        invariant
            i <= libraries@.len(),
            lv == libraries_view(libraries@),
            want == match plugin_id {
                Some(id) => Some(id@),
                None => None::<Seq<char>>,
            },
            result@.map_values(|p: (String, String)| (p.0@, p.1@)) == spec_discover(
                lv.subrange(0, i as int),
                want,
            ),
        decreases libraries.len() - i,
    {
        let path = &libraries[i].0;
        let plugins = &libraries[i].1.plugins;
        let ghost before = result@.map_values(|p: (String, String)| (p.0@, p.1@));
        let ghost ids = lv[i as int].1;
        assert(ids =~= plugins@.map_values(|p: crate::library::PluginMetadata| p.id@));
        let mut j: usize = 0;
        while j < plugins.len()
            invariant
                j <= plugins@.len(),
                ids == plugins@.map_values(|p: crate::library::PluginMetadata| p.id@),
                want == match plugin_id {
                    Some(id) => Some(id@),
                    None => None::<Seq<char>>,
                },
                result@.map_values(|p: (String, String)| (p.0@, p.1@)) == before + ids.subrange(
                    0,
                    j as int,
                ).filter(|id: Seq<char>| want is None || want == Some(id)).map_values(
                    |id: Seq<char>| (path@, id),
                ),
            decreases plugins.len() - j,
        {
            let id = &plugins[j].id;
            let keep = match plugin_id {
                None => true,
                Some(want_id) => string_eq(want_id, id.as_str()),
            };
            proof {
                let s = ids.subrange(0, j as int);
                let s1 = ids.subrange(0, j + 1);
                assert(s1.drop_last() =~= s);
                assert(s1.last() == id@);
                assert(s.push(id@) =~= s1);
            }
            let ghost prev = result@;
            if keep {
                result.push((path.clone(), id.clone()));
                proof {
                    assert(result@.map_values(|p: (String, String)| (p.0@, p.1@)) =~= prev.map_values(
                        |p: (String, String)| (p.0@, p.1@),
                    ).push((path@, id@)));
                }
            }
            proof {
                let f = |id: Seq<char>| want is None || want == Some(id);
                let g = |id: Seq<char>| (path@, id);
                let s = ids.subrange(0, j as int);
                let s1 = ids.subrange(0, j + 1);
                reveal(Seq::filter);
                assert(s1.drop_last() =~= s);
                if keep {
                    assert(s1.filter(f) =~= s.filter(f).push(id@));
                    assert(s1.filter(f).map_values(g) =~= s.filter(f).map_values(g).push(
                        (path@, id@),
                    ));
                } else {
                    assert(s1.filter(f) =~= s.filter(f));
                }
                assert(result@.map_values(|p: (String, String)| (p.0@, p.1@)) =~= before
                    + s1.filter(f).map_values(g));
            }
            j = j + 1;
        }
        proof {
            let pre = lv.subrange(0, i as int);
            let pre1 = lv.subrange(0, i + 1);
            assert(pre1.drop_last() =~= pre);
            assert(pre1.last() == lv[i as int]);
            assert(lv[i as int].0 == path@);
            assert(ids.subrange(0, plugins@.len() as int) =~= ids);
        }
        i = i + 1;
    }
    assert(lv.subrange(0, i as int) =~= lv);
    result
}

/// Why the selected plugins cannot be fuzzed.
#[derive(Clone, Copy, PartialEq, Eq, Structural, Debug)]
pub enum SelectionError {
    /// No plugin was selected.
    NoPlugins,
    /// A seed can only be reproduced with one plugin, and more were selected.
    AmbiguousReproduction,
}

/// Check the selected plugins before fuzzing: at least one is needed, and exactly one when a
/// seed is reproduced.
pub fn check_selection(count: usize, reproduce: Option<u64>) -> (r: Result<(), SelectionError>)
    ensures
        count == 0 ==> r == Err::<(), SelectionError>(SelectionError::NoPlugins),
        count > 1 && reproduce is Some ==> r == Err::<(), SelectionError>(
            SelectionError::AmbiguousReproduction,
        ),
        count == 1 || (count > 1 && reproduce is None) ==> r is Ok,
{
    if count == 0 {
        Err(SelectionError::NoPlugins)
    } else if reproduce.is_some() && count > 1 {
        Err(SelectionError::AmbiguousReproduction)
    } else {
        Ok(())
    }
}

/// Collects the failed chunks of a fuzzing session and tells when to stop.
pub struct FuzzCollector {
    results: Vec<FuzzResult>,
    limit: usize,
    running: bool,
}

impl FuzzCollector {
    /// The failed chunks collected so far.
    pub closed spec fn spec_results(&self) -> Seq<FuzzResult> {
        self.results@
    }

    /// Whether the fuzzer should go on.
    pub closed spec fn spec_running(&self) -> bool {
        self.running
    }

    /// How many failures stop the fuzzer.
    pub closed spec fn spec_limit(&self) -> nat {
        self.limit as nat
    }

    /// A collector that stops after `limit` failures.
    pub fn new(limit: usize) -> (r: FuzzCollector)
        ensures
            r.spec_results() == Seq::<FuzzResult>::empty(),
            r.spec_running(),
            r.spec_limit() == limit,
    {
        FuzzCollector { results: Vec::new(), limit, running: true }
    }

    /// Record the result of a chunk. Failures and crashes are kept; once as many as the limit
    /// are kept, the fuzzer stops.
    pub fn record(&mut self, chunk: FuzzResult)
        ensures
            final(self).spec_limit() == old(self).spec_limit(),
            chunk.status is Success ==> final(self).spec_results() == old(self).spec_results()
                && final(self).spec_running() == old(self).spec_running(),
            !(chunk.status is Success) ==> final(self).spec_results() == old(
                self,
            ).spec_results().push(chunk) && final(self).spec_running() == (old(self).spec_running()
                && old(self).spec_results().len() + 1 < old(self).spec_limit()),
    {
        if !chunk.status.is_success() {
            self.results.push(chunk);
            if self.results.len() >= self.limit {
                self.running = false;
            }
        }
    }

    /// Whether the fuzzer should go on.
    pub fn is_running(&self) -> (r: bool)
        ensures
            r == self.spec_running(),
    {
        self.running
    }

    /// The failed chunks, in the order they were recorded.
    pub fn into_results(self) -> (r: Vec<FuzzResult>)
        ensures
            r@ == self.spec_results(),
    {
        self.results
    }
}

/// Whether every chunk succeeded, which makes the fuzz command exit successfully.
pub fn all_succeeded(results: &Vec<FuzzResult>) -> (r: bool)
    ensures
        r == forall|i: int| 0 <= i < results@.len() ==> (#[trigger] results@[i]).status is Success,
{
    let mut i: usize = 0;
    while i < results.len()
        invariant
            i <= results@.len(),
            forall|j: int| 0 <= j < i ==> (#[trigger] results@[j]).status is Success,
        decreases results.len() - i,
    {
        if !results[i].status.is_success() {
            return false;
        }
        i = i + 1;
    }
    true
}

/// The number of blocks that cover `samples` samples in blocks of at most `max_block_size`.
pub fn blocks_to_process(samples: u32, max_block_size: u32) -> (r: u32)
    requires
        max_block_size > 0,
    ensures
        r as int * max_block_size >= samples,
        (r as int - 1) * max_block_size < samples,
{
    let q = samples / max_block_size;
    let rem = samples % max_block_size;
    assert(q * max_block_size + rem == samples && rem < max_block_size) by (nonlinear_arith)
        requires
            q == samples / max_block_size,
            rem == samples % max_block_size,
            max_block_size > 0,
    ;
    assert(rem > 0 ==> q < 0xffff_ffffu32) by (nonlinear_arith)
        requires
            q * max_block_size + rem == samples,
            max_block_size >= 1,
            samples <= 0xffff_ffffu32,
    ;
    let r = if rem == 0 {
        q
    } else {
        q + 1
    };
    assert(r as int * max_block_size == q * max_block_size + (r - q) * max_block_size) by (nonlinear_arith);
    assert((r as int - 1) * max_block_size == r as int * max_block_size - max_block_size) by (nonlinear_arith);
    r
}

/// What the plugin asked to be queried again, after a round of callbacks.
#[derive(Clone, Copy, PartialEq, Eq, Structural, Debug)]
pub struct ConfigChanges {
    pub audio_ports: bool,
    pub note_ports: bool,
    pub params: bool,
}

/// Whether an event asks for the audio port configuration to be queried again.
pub open spec fn changes_audio_ports(e: CallbackEvent) -> bool {
    e == CallbackEvent::AudioPortsRescanList || e == CallbackEvent::AudioPortsRescanInfo || e
        == CallbackEvent::AudioPortsConfigRescan
}

/// Whether an event asks for the note port configuration to be queried again.
pub open spec fn changes_note_ports(e: CallbackEvent) -> bool {
    e == CallbackEvent::NotePortsRescanAll
}

/// Whether an event asks for the parameter list to be queried again.
pub open spec fn changes_params(e: CallbackEvent) -> bool {
    e == CallbackEvent::ParamsRescanAll || e == CallbackEvent::ParamsRescanInfo
}

/// Which configurations the fuzzer queries again after the plugin's callbacks: the audio
/// ports after a list, info or configuration rescan, the note ports after a full rescan, and
/// the parameters after a full or info rescan.
pub fn config_changes(events: &Vec<CallbackEvent>) -> (r: ConfigChanges)
    ensures
        r.audio_ports == exists|i: int| 0 <= i < events@.len() && changes_audio_ports(#[trigger] events@[i]),
        r.note_ports == exists|i: int| 0 <= i < events@.len() && changes_note_ports(#[trigger] events@[i]),
        r.params == exists|i: int| 0 <= i < events@.len() && changes_params(#[trigger] events@[i]),
{
    let mut r = ConfigChanges { audio_ports: false, note_ports: false, params: false };
    let mut i: usize = 0;
    while i < events.len()
        invariant
            i <= events@.len(),
            r.audio_ports == exists|j: int| 0 <= j < i && changes_audio_ports(#[trigger] events@[j]),
            r.note_ports == exists|j: int| 0 <= j < i && changes_note_ports(#[trigger] events@[j]),
            r.params == exists|j: int| 0 <= j < i && changes_params(#[trigger] events@[j]),
        decreases events.len() - i,
    {
        let e = events[i];
        if e == CallbackEvent::AudioPortsRescanList || e == CallbackEvent::AudioPortsRescanInfo || e
            == CallbackEvent::AudioPortsConfigRescan {
            r.audio_ports = true;
        }
        if e == CallbackEvent::NotePortsRescanAll {
            r.note_ports = true;
        }
        if e == CallbackEvent::ParamsRescanAll || e == CallbackEvent::ParamsRescanInfo {
            r.params = true;
        }
        assert(events@[i as int] == e);
        i = i + 1;
    }
    r
}

/// Whether the fuzzer starts another chunk: while time is left, when a duration was given, and
/// as long as the collector has not stopped it.
pub fn keep_fuzzing(elapsed_millis: u128, duration_millis: Option<u128>, running: bool) -> (r: bool)
    ensures
        r == (running && match duration_millis {
            None => true,
            Some(d) => elapsed_millis < d,
        }),
{
    let in_time = match duration_millis {
        None => true,
        Some(d) => elapsed_millis < d,
    };
    in_time && running
}

} // verus!
