//! The host's side of a preset provider's metadata receiver.
//!
//! While a provider reads a location, it declares one or more presets on the receiver, one call
//! at a time, like a state machine. A file holds either a single preset (declared without a load
//! key) or a container of presets, each with its own load key. The first error the plugin makes
//! is kept; later calls never overwrite it.

use crate::keyed::{KeyedList, insert_entry};
use crate::preset::{
    Flags, LocationValue, PartialPreset, PartialPresetModel, PluginAbi, PluginAbiModel, PluginId,
    PluginIdModel, Preset, PresetModel, PresetName, PresetNameModel, parse_timestamp,
    spec_parse_timestamp,
};
use crate::text::{
    RawText, TextError, mandatory_string, optional_string, spec_mandatory_string,
    spec_optional_string, trimmed_eq_ignore_ascii_case, trimmed_eq_ignore_ascii_case_exec,
};
use vstd::prelude::*;

verus! {

/// One or more presets declared for a location.
pub enum PresetFile {
    Single(Preset),
    /// One or more presets, each under its load key.
    Container(KeyedList<Preset>),
}

/// The abstract value of a [`PresetFile`].
pub enum PresetFileModel {
    Single(PresetModel),
    Container(Seq<(Seq<char>, PresetModel)>),
}

impl View for PresetFile {
    type V = PresetFileModel;

    open spec fn view(&self) -> PresetFileModel {
        match self {
            PresetFile::Single(p) => PresetFileModel::Single(p@),
            PresetFile::Container(c) => PresetFileModel::Container(c@),
        }
    }
}

/// The receiver's callbacks.
#[derive(Clone, Copy, PartialEq, Eq, Structural, Debug)]
pub enum ReceiverCallback {
    OnError,
    BeginPreset,
    AddPluginId,
    SetSoundpackId,
    SetFlags,
    AddCreator,
    SetDescription,
    SetTimestamps,
    AddFeature,
    AddExtraInfo,
}

/// The string arguments of the receiver's callbacks.
#[derive(Clone, Copy, PartialEq, Eq, Structural, Debug)]
pub enum Argument {
    ErrorMessage,
    Name,
    LoadKey,
    PluginAbi,
    PluginId,
    SoundpackId,
    Creator,
    Description,
    Feature,
    Key,
    Value,
}

/// The two timestamps of a preset.
#[derive(Clone, Copy, PartialEq, Eq, Structural, Debug)]
pub enum TimestampKind {
    Creation,
    Modification,
}

/// What went wrong in a callback.
pub enum ReceiverFault {
    /// The callback was made from another thread than the one that created the receiver.
    WrongThread,
    /// A string argument was refused.
    InvalidArgument(Argument, TextError),
    /// The plugin reported a load error.
    LoadError(i32, String),
    /// `begin_preset()` was called a second time for a file holding a single preset.
    SecondBeginForSingle,
    /// `begin_preset()` was called without a load key after one with a load key.
    KeylessAfterContainer,
    /// A preset in a container was declared without a name.
    NamelessContainerPreset,
    /// No file name could be derived from the location.
    NoFileName,
    /// A preset was declared without any plugin ID.
    NoPluginId(PresetName),
    /// A preset attribute was set before any `begin_preset()` call.
    NoPrecedingBegin,
    /// The ABI is `clap` in another case or with white space around it.
    AbiTypo(String),
    /// A timestamp could not be converted to a date.
    InvalidTimestamp(TimestampKind),
    /// Both timestamps were `CLAP_TIMESTAMP_UNKNOWN`.
    BothTimestampsUnknown,
}

/// The abstract value of a [`ReceiverFault`].
pub enum ReceiverFaultModel {
    WrongThread,
    InvalidArgument(Argument, TextError),
    LoadError(i32, Seq<char>),
    SecondBeginForSingle,
    KeylessAfterContainer,
    NamelessContainerPreset,
    NoFileName,
    NoPluginId(PresetNameModel),
    NoPrecedingBegin,
    AbiTypo(Seq<char>),
    InvalidTimestamp(TimestampKind),
    BothTimestampsUnknown,
}

impl View for ReceiverFault {
    type V = ReceiverFaultModel;

    open spec fn view(&self) -> ReceiverFaultModel {
        match self {
            ReceiverFault::WrongThread => ReceiverFaultModel::WrongThread,
            ReceiverFault::InvalidArgument(a, e) => ReceiverFaultModel::InvalidArgument(*a, *e),
            ReceiverFault::LoadError(c, m) => ReceiverFaultModel::LoadError(*c, m@),
            ReceiverFault::SecondBeginForSingle => ReceiverFaultModel::SecondBeginForSingle,
            ReceiverFault::KeylessAfterContainer => ReceiverFaultModel::KeylessAfterContainer,
            ReceiverFault::NamelessContainerPreset => ReceiverFaultModel::NamelessContainerPreset,
            ReceiverFault::NoFileName => ReceiverFaultModel::NoFileName,
            ReceiverFault::NoPluginId(n) => ReceiverFaultModel::NoPluginId(n@),
            ReceiverFault::NoPrecedingBegin => ReceiverFaultModel::NoPrecedingBegin,
            ReceiverFault::AbiTypo(a) => ReceiverFaultModel::AbiTypo(a@),
            ReceiverFault::InvalidTimestamp(t) => ReceiverFaultModel::InvalidTimestamp(*t),
            ReceiverFault::BothTimestampsUnknown => ReceiverFaultModel::BothTimestampsUnknown,
        }
    }
}

/// An error kept by the receiver: the callback it happened in (none when finishing) and what
/// went wrong.
pub struct ReceiverError {
    pub callback: Option<ReceiverCallback>,
    pub fault: ReceiverFault,
}

/// The abstract value of a [`ReceiverError`].
pub struct ReceiverErrorModel {
    pub callback: Option<ReceiverCallback>,
    pub fault: ReceiverFaultModel,
}

impl View for ReceiverError {
    type V = ReceiverErrorModel;

    open spec fn view(&self) -> ReceiverErrorModel {
        ReceiverErrorModel { callback: self.callback, fault: self.fault@ }
    }
}

/// The abstract value of what a receiver has collected so far.
pub open spec fn outcome_view(r: Result<Option<PresetFile>, ReceiverError>) -> Result<
    Option<PresetFileModel>,
    ReceiverErrorModel,
> {
    match r {
        Ok(Some(f)) => Ok(Some(f@)),
        Ok(None) => Ok(None),
        Err(e) => Err(e@),
    }
}

/// The metadata receiver for one location.
pub struct MetadataReceiver {
    /// The location being read. Single presets without a name are named after its file.
    location: LocationValue,
    /// The location's flags, inherited by presets that set none.
    location_flags: Flags,
    /// The first error, or the presets written so far.
    result: Result<Option<PresetFile>, ReceiverError>,
    /// The preset being declared, once `begin_preset()` was called.
    next_preset_data: Option<PartialPreset>,
    /// The load key of the preset being declared, if it belongs to a container.
    next_load_key: Option<String>,
}

/// The abstract value of a [`MetadataReceiver`].
pub struct ReceiverModel {
    pub location: LocationValue,
    pub location_flags: Flags,
    pub result: Result<Option<PresetFileModel>, ReceiverErrorModel>,
    pub pending: Option<PartialPresetModel>,
    pub load_key: Option<Seq<char>>,
}

impl View for MetadataReceiver {
    type V = ReceiverModel;

    closed spec fn view(&self) -> ReceiverModel {
        ReceiverModel {
            location: self.location,
            location_flags: self.location_flags,
            result: outcome_view(self.result),
            pending: match self.next_preset_data {
                Some(p) => Some(p@),
                None => None,
            },
            load_key: match self.next_load_key {
                Some(k) => Some(k@),
                None => None,
            },
        }
    }
}

/// A mandatory string argument, or the fault that refuses it.
pub open spec fn mandatory_arg(raw: RawText, arg: Argument) -> Result<Seq<char>, ReceiverFaultModel> {
    match spec_mandatory_string(raw) {
        Ok(s) => Ok(s@),
        Err(e) => Err(ReceiverFaultModel::InvalidArgument(arg, e)),
    }
}

/// An optional string argument, or the fault that refuses it.
pub open spec fn optional_arg(raw: RawText, arg: Argument) -> Result<
    Option<Seq<char>>,
    ReceiverFaultModel,
> {
    match spec_optional_string(raw) {
        Ok(Some(s)) => Ok(Some(s@)),
        Ok(None) => Ok(None),
        Err(e) => Err(ReceiverFaultModel::InvalidArgument(arg, e)),
    }
}

/// Drop the value of a parsed argument, keeping its fault.
pub open spec fn checked<T>(r: Result<T, ReceiverFaultModel>) -> Result<(), ReceiverFaultModel> {
    match r {
        Ok(_) => Ok(()),
        Err(f) => Err(f),
    }
}

/// The value of a parsed argument (meaningful when it parsed).
pub open spec fn value_of<T>(r: Result<T, ReceiverFaultModel>) -> T {
    r->Ok_0
}

/// The abstract value of a timestamp as parsed.
pub open spec fn timestamp_arg(t: u64, kind: TimestampKind) -> Result<
    Option<time::OffsetDateTime>,
    ReceiverFaultModel,
> {
    match spec_parse_timestamp(t) {
        Ok(v) => Ok(v),
        Err(_) => Err(ReceiverFaultModel::InvalidTimestamp(kind)),
    }
}

impl ReceiverModel {
    /// Once presets are collected in a container, the preset being declared has a load key.
    pub open spec fn well_formed(self) -> bool {
        self.result matches Ok(Some(PresetFileModel::Container(_))) && self.pending is Some
            ==> self.load_key is Some
    }

    /// Record a fault in `callback`, unless an earlier error is kept already.
    pub open spec fn fail(self, callback: ReceiverCallback, fault: ReceiverFaultModel) -> ReceiverModel {
        ReceiverModel {
            result: if self.result is Ok {
                Err(ReceiverErrorModel { callback: Some(callback), fault })
            } else {
                self.result
            },
            ..self
        }
    }

    /// A callback that edits the preset being declared: it checks the thread and its arguments,
    /// needs a preceding `begin_preset()`, then applies `edit`.
    pub open spec fn edit(
        self,
        callback: ReceiverCallback,
        same_thread: bool,
        args: Result<(), ReceiverFaultModel>,
        edit: spec_fn(PartialPresetModel) -> PartialPresetModel,
    ) -> ReceiverModel {
        if !same_thread {
            self.fail(callback, ReceiverFaultModel::WrongThread)
        } else {
            match args {
                Err(f) => self.fail(callback, f),
                Ok(_) => match self.pending {
                    None => self.fail(callback, ReceiverFaultModel::NoPrecedingBegin),
                    Some(p) => ReceiverModel { pending: Some(edit(p)), ..self },
                },
            }
        }
    }

    /// The state after `on_error()`: the plugin's load error is recorded.
    pub open spec fn after_on_error(self, same_thread: bool, os_error: i32, message: RawText) -> ReceiverModel {
        let cb = ReceiverCallback::OnError;
        if !same_thread {
            self.fail(cb, ReceiverFaultModel::WrongThread)
        } else {
            match mandatory_arg(message, Argument::ErrorMessage) {
                Err(f) => self.fail(cb, f),
                Ok(m) => self.fail(cb, ReceiverFaultModel::LoadError(os_error, m)),
            }
        }
    }

    /// The state after `add_plugin_id()`.
    pub open spec fn after_add_plugin_id(self, same_thread: bool, abi: RawText, id: RawText) -> ReceiverModel {
        let cb = ReceiverCallback::AddPluginId;
        let a = mandatory_arg(abi, Argument::PluginAbi);
        let i = mandatory_arg(id, Argument::PluginId);
        if !same_thread {
            self.fail(cb, ReceiverFaultModel::WrongThread)
        } else if a is Err {
            self.fail(cb, a->Err_0)
        } else if i is Err {
            self.fail(cb, i->Err_0)
        } else {
            match self.pending {
                None => self.fail(cb, ReceiverFaultModel::NoPrecedingBegin),
                Some(p) => {
                    let abi_v = a->Ok_0;
                    if abi_v == "clap"@ {
                        ReceiverModel {
                            pending: Some(
                                PartialPresetModel {
                                    plugin_ids: p.plugin_ids.push(
                                        PluginIdModel { abi: PluginAbiModel::Clap, id: i->Ok_0 },
                                    ),
                                    ..p
                                },
                            ),
                            ..self
                        }
                    } else if trimmed_eq_ignore_ascii_case(abi_v, "clap"@) {
                        self.fail(cb, ReceiverFaultModel::AbiTypo(abi_v))
                    } else {
                        ReceiverModel {
                            pending: Some(
                                PartialPresetModel {
                                    plugin_ids: p.plugin_ids.push(
                                        PluginIdModel {
                                            abi: PluginAbiModel::Other(abi_v),
                                            id: i->Ok_0,
                                        },
                                    ),
                                    ..p
                                },
                            ),
                            ..self
                        }
                    }
                },
            }
        }
    }

    /// The state after `set_soundpack_id()`.
    pub open spec fn after_set_soundpack_id(self, same_thread: bool, id: RawText) -> ReceiverModel {
        let a = mandatory_arg(id, Argument::SoundpackId);
        self.edit(
            ReceiverCallback::SetSoundpackId,
            same_thread,
            checked(a),
            |p: PartialPresetModel| PartialPresetModel { soundpack_id: Some(value_of(a)), ..p },
        )
    }

    /// The state after `set_flags()`.
    pub open spec fn after_set_flags(self, same_thread: bool, flags: u32) -> ReceiverModel {
        self.edit(
            ReceiverCallback::SetFlags,
            same_thread,
            Ok(()),
            |p: PartialPresetModel|
                PartialPresetModel { flags: Some(Flags::spec_from_raw(flags)), ..p },
        )
    }

    /// The state after `add_creator()`.
    pub open spec fn after_add_creator(self, same_thread: bool, creator: RawText) -> ReceiverModel {
        let a = mandatory_arg(creator, Argument::Creator);
        self.edit(
            ReceiverCallback::AddCreator,
            same_thread,
            checked(a),
            |p: PartialPresetModel| PartialPresetModel { creators: p.creators.push(value_of(a)), ..p },
        )
    }

    /// The state after `set_description()`.
    pub open spec fn after_set_description(self, same_thread: bool, description: RawText) -> ReceiverModel {
        let a = mandatory_arg(description, Argument::Description);
        self.edit(
            ReceiverCallback::SetDescription,
            same_thread,
            checked(a),
            |p: PartialPresetModel| PartialPresetModel { description: Some(value_of(a)), ..p },
        )
    }

    /// The state after `add_feature()`.
    pub open spec fn after_add_feature(self, same_thread: bool, feature: RawText) -> ReceiverModel {
        let a = mandatory_arg(feature, Argument::Feature);
        self.edit(
            ReceiverCallback::AddFeature,
            same_thread,
            checked(a),
            |p: PartialPresetModel| PartialPresetModel { features: p.features.push(value_of(a)), ..p },
        )
    }

    /// The state after `add_extra_info()`.
    pub open spec fn after_add_extra_info(self, same_thread: bool, key: RawText, value: RawText) -> ReceiverModel {
        let k = mandatory_arg(key, Argument::Key);
        let v = mandatory_arg(value, Argument::Value);
        self.edit(
            ReceiverCallback::AddExtraInfo,
            same_thread,
            if k is Err {
                checked(k)
            } else {
                checked(v)
            },
            |p: PartialPresetModel|
                PartialPresetModel {
                    extra_info: insert_entry(p.extra_info, value_of(k), value_of(v)),
                    ..p
                },
        )
    }

    /// The state after `set_timestamps()`.
    pub open spec fn after_set_timestamps(self, same_thread: bool, creation: u64, modification: u64) -> ReceiverModel {
        let c = timestamp_arg(creation, TimestampKind::Creation);
        let m = timestamp_arg(modification, TimestampKind::Modification);
        self.edit(
            ReceiverCallback::SetTimestamps,
            same_thread,
            if c is Err {
                checked(c)
            } else if m is Err {
                checked(m)
            } else if value_of(c) is None && value_of(m) is None {
                Err(ReceiverFaultModel::BothTimestampsUnknown)
            } else {
                Ok(())
            },
            |p: PartialPresetModel|
                PartialPresetModel {
                    creation_time: value_of(c),
                    modification_time: value_of(m),
                    ..p
                },
        )
    }

    /// Whether writing out the pending preset reaches a combination that the receiver cannot
    /// handle: a preset with a load key after a single preset, or one without a load key after
    /// a container.
    pub open spec fn flush_is_defined(self) -> bool {
        match self.pending {
            None => true,
            Some(p) => match self.result {
                Err(_) => true,
                Ok(res) => match p.finalize(self.location_flags) {
                    Err(_) => true,
                    Ok(_) => match (res, self.load_key) {
                        (None, _) => true,
                        (Some(PresetFileModel::Container(_)), Some(_)) => true,
                        _ => false,
                    },
                },
            },
        }
    }

    /// Write the pending preset, if any, to the result: a single preset without a load key, a
    /// container entry with one. The pending preset is consumed even when this fails.
    pub open spec fn flush(self) -> (ReceiverModel, Result<(), ReceiverFaultModel>) {
        match self.pending {
            None => (self, Ok(())),
            Some(p) => {
                let s1 = ReceiverModel { pending: None, ..self };
                match self.result {
                    Err(_) => (s1, Ok(())),
                    Ok(res) => match p.finalize(self.location_flags) {
                        Err(name) => (s1, Err(ReceiverFaultModel::NoPluginId(name))),
                        Ok(preset) => {
                            let s2 = ReceiverModel { load_key: None, ..s1 };
                            match (res, self.load_key) {
                                (None, None) => (
                                    ReceiverModel {
                                        result: Ok(Some(PresetFileModel::Single(preset))),
                                        ..s2
                                    },
                                    Ok(()),
                                ),
                                (None, Some(k)) => (
                                    ReceiverModel {
                                        result: Ok(
                                            Some(PresetFileModel::Container(seq![(k, preset)])),
                                        ),
                                        ..s2
                                    },
                                    Ok(()),
                                ),
                                (Some(PresetFileModel::Container(c)), Some(k)) => (
                                    ReceiverModel {
                                        result: Ok(
                                            Some(
                                                PresetFileModel::Container(
                                                    insert_entry(c, k, preset),
                                                ),
                                            ),
                                        ),
                                        ..s2
                                    },
                                    Ok(()),
                                ),
                                _ => (s2, Ok(())),
                            }
                        },
                    },
                }
            },
        }
    }

    /// The state after `begin_preset()`, and what the call returns.
    pub open spec fn after_begin_preset(self, same_thread: bool, name: RawText, load_key: RawText) -> (ReceiverModel, bool) {
        let cb = ReceiverCallback::BeginPreset;
        let n = optional_arg(name, Argument::Name);
        let k = optional_arg(load_key, Argument::LoadKey);
        if !same_thread {
            (self.fail(cb, ReceiverFaultModel::WrongThread), false)
        } else if n is Err {
            (self.fail(cb, n->Err_0), false)
        } else if k is Err {
            (self.fail(cb, k->Err_0), false)
        } else if self.result is Err {
            (self, false)
        } else if self.result matches Ok(Some(PresetFileModel::Single(_))) {
            (self.fail(cb, ReceiverFaultModel::SecondBeginForSingle), false)
        } else if self.result matches Ok(Some(PresetFileModel::Container(_))) && k->Ok_0 is None {
            (self.fail(cb, ReceiverFaultModel::KeylessAfterContainer), false)
        } else {
            let preset_name = match n->Ok_0 {
                Some(x) => Ok(PresetNameModel::Explicit(x)),
                None => if k->Ok_0 is Some {
                    Err(ReceiverFaultModel::NamelessContainerPreset)
                } else {
                    match self.location.spec_file_name() {
                        Some(f) => Ok(PresetNameModel::Filename(f)),
                        None => Err(ReceiverFaultModel::NoFileName),
                    }
                },
            };
            match preset_name {
                Err(f) => (self.fail(cb, f), false),
                Ok(pn) => {
                    let flushed = if k->Ok_0 is Some {
                        self.flush()
                    } else {
                        (self, Ok(()))
                    };
                    match flushed.1 {
                        Err(f) => (flushed.0.fail(cb, f), false),
                        Ok(_) => (
                            ReceiverModel {
                                load_key: k->Ok_0,
                                pending: Some(PartialPresetModel::empty(pn)),
                                ..flushed.0
                            },
                            true,
                        ),
                    }
                },
            }
        }
    }
}

/// Read a mandatory argument.
fn mandatory(raw: RawText, arg: Argument) -> (r: Result<String, ReceiverFault>)
    ensures
        match r {
            Ok(s) => mandatory_arg(raw, arg) == Ok::<Seq<char>, ReceiverFaultModel>(s@),
            Err(f) => mandatory_arg(raw, arg) == Err::<Seq<char>, ReceiverFaultModel>(f@),
        },
{
    match mandatory_string(raw) {
        Ok(s) => Ok(s),
        Err(e) => Err(ReceiverFault::InvalidArgument(arg, e)),
    }
}

/// Read an optional argument.
fn optional(raw: RawText, arg: Argument) -> (r: Result<Option<String>, ReceiverFault>)
    ensures
        match r {
            Ok(Some(s)) => optional_arg(raw, arg) == Ok::<Option<Seq<char>>, ReceiverFaultModel>(
                Some(s@),
            ),
            Ok(None) => optional_arg(raw, arg) == Ok::<Option<Seq<char>>, ReceiverFaultModel>(None),
            Err(f) => optional_arg(raw, arg) == Err::<Option<Seq<char>>, ReceiverFaultModel>(f@),
        },
{
    match optional_string(raw) {
        Ok(s) => Ok(s),
        Err(e) => Err(ReceiverFault::InvalidArgument(arg, e)),
    }
}

/// Parse one of the two timestamps.
fn timestamp(t: u64, kind: TimestampKind) -> (r: Result<Option<time::OffsetDateTime>, ReceiverFault>)
    ensures
        match r {
            Ok(v) => timestamp_arg(t, kind) == Ok::<
                Option<time::OffsetDateTime>,
                ReceiverFaultModel,
            >(v),
            Err(f) => timestamp_arg(t, kind) == Err::<
                Option<time::OffsetDateTime>,
                ReceiverFaultModel,
            >(f@),
        },
{
    match parse_timestamp(t) {
        Ok(v) => Ok(v),
        Err(_) => Err(ReceiverFault::InvalidTimestamp(kind)),
    }
}

impl MetadataReceiver {
    #[verifier::type_invariant]
    spec fn inv(self) -> bool {
        self@.well_formed()
    }

    /// A receiver for a location, with nothing declared yet.
    pub fn new(location: LocationValue, location_flags: Flags) -> (r: MetadataReceiver)
        ensures
            r@ == (ReceiverModel {
                location,
                location_flags,
                result: Ok(None),
                pending: None,
                load_key: None,
            }),
    {
        MetadataReceiver {
            location,
            location_flags,
            result: Ok(None),
            next_preset_data: None,
            next_load_key: None,
        }
    }

    /// Record a fault in `callback`, unless an earlier error is kept already.
    fn fail(&mut self, callback: ReceiverCallback, fault: ReceiverFault)
        ensures
            final(self)@ == old(self)@.fail(callback, fault@),
    {
        if self.result.is_ok() {
            self.result = Err(ReceiverError { callback: Some(callback), fault });
        }
    }

    /// The plugin reports an error while reading the location. This is always recorded as an
    /// error (unless an earlier one is kept).
    pub fn on_error(&mut self, same_thread: bool, os_error: i32, message: RawText)
        ensures
            final(self)@ == old(self)@.after_on_error(same_thread, os_error, message),
    {
        let cb = ReceiverCallback::OnError;
        if !same_thread {
            self.fail(cb, ReceiverFault::WrongThread);
            return ;
        }
        match mandatory(message, Argument::ErrorMessage) {
            Err(f) => self.fail(cb, f),
            Ok(m) => self.fail(cb, ReceiverFault::LoadError(os_error, m)),
        }
    }

    /// Write the pending preset, if any, to the result. See [`ReceiverModel::flush`].
    fn flush_preset(&mut self) -> (r: Result<(), ReceiverFault>)
        requires
            old(self)@.flush_is_defined(),
        ensures
            final(self)@ == old(self)@.flush().0,
            match r {
                Ok(_) => old(self)@.flush().1 is Ok,
                Err(f) => old(self)@.flush().1 == Err::<(), ReceiverFaultModel>(f@),
            },
    {
        let ghost old_self = self@;
        let mut taken = None;
        std::mem::swap(&mut taken, &mut self.next_preset_data);
        let partial = match taken {
            None => return Ok(()),
            Some(p) => p,
        };
        if self.result.is_err() {
            return Ok(());
        }
        let preset = match partial.finalize(self.location_flags) {
            Ok(preset) => preset,
            Err(name) => return Err(ReceiverFault::NoPluginId(name)),
        };
        let mut load_key = None;
        std::mem::swap(&mut load_key, &mut self.next_load_key);
        let mut result = Ok(None);
        std::mem::swap(&mut result, &mut self.result);
        match result {
            Ok(None) => match load_key {
                None => {
                    self.result = Ok(Some(PresetFile::Single(preset)));
                },
                Some(k) => {
                    let ghost kv = k@;
                    let ghost pv = preset@;
                    let mut presets = KeyedList::new();
                    presets.insert(k, preset);
                    proof {
                        assert(insert_entry(Seq::<(Seq<char>, PresetModel)>::empty(), kv, pv)
                            =~= seq![(kv, pv)]);
                    }
                    self.result = Ok(Some(PresetFile::Container(presets)));
                },
            },
            Ok(Some(PresetFile::Container(mut presets))) => match load_key {
                Some(k) => {
                    presets.insert(k, preset);
                    self.result = Ok(Some(PresetFile::Container(presets)));
                },
                None => {
                    assert(false);
                },
            },
            Ok(Some(PresetFile::Single(single))) => {
                assert(false);
                self.result = Ok(Some(PresetFile::Single(single)));
            },
            Err(e) => {
                self.result = Err(e);
            },
        }
        Ok(())
    }

    /// Whether [`MetadataReceiver::finish`] can write out the pending preset. It cannot after a
    /// single preset followed by a preset with a load key.
    pub fn can_finish(&self) -> (r: bool)
        ensures
            r == self@.flush_is_defined(),
    {
        match &self.next_preset_data {
            None => true,
            Some(p) => match &self.result {
                Err(_) => true,
                Ok(res) => {
                    if p.plugin_ids.len() == 0 {
                        true
                    } else {
                        match (res, &self.next_load_key) {
                            (None, _) => true,
                            (Some(PresetFile::Container(_)), Some(_)) => true,
                            _ => false,
                        }
                    }
                },
            },
        }
    }

    /// Start declaring a preset. Returns `false` when the call is refused, or when an error was
    /// kept already.
    pub fn begin_preset(&mut self, same_thread: bool, name: RawText, load_key: RawText) -> (r: bool)
        ensures
            (final(self)@, r) == old(self)@.after_begin_preset(same_thread, name, load_key),
    {
        proof {
            use_type_invariant(&*self);
        }
        let cb = ReceiverCallback::BeginPreset;
        if !same_thread {
            self.fail(cb, ReceiverFault::WrongThread);
            return false;
        }
        let name = match optional(name, Argument::Name) {
            Ok(n) => n,
            Err(f) => {
                self.fail(cb, f);
                return false;
            },
        };
        let load_key = match optional(load_key, Argument::LoadKey) {
            Ok(k) => k,
            Err(f) => {
                self.fail(cb, f);
                return false;
            },
        };
        match &self.result {
            Err(_) => {
                return false;
            },
            Ok(Some(PresetFile::Single(_))) => {
                self.fail(cb, ReceiverFault::SecondBeginForSingle);
                return false;
            },
            Ok(Some(PresetFile::Container(_))) => {
                if load_key.is_none() {
                    self.fail(cb, ReceiverFault::KeylessAfterContainer);
                    return false;
                }
            },
            Ok(None) => {},
        }
        let preset_name = match name {
            Some(x) => PresetName::Explicit(x),
            None => {
                if load_key.is_some() {
                    self.fail(cb, ReceiverFault::NamelessContainerPreset);
                    return false;
                }
                match self.location.file_name() {
                    Some(f) => PresetName::Filename(f),
                    None => {
                        self.fail(cb, ReceiverFault::NoFileName);
                        return false;
                    },
                }
            },
        };
        if load_key.is_some() {
            match self.flush_preset() {
                Ok(_) => {},
                Err(f) => {
                    self.fail(cb, f);
                    return false;
                },
            }
        }
        self.next_load_key = load_key;
        self.next_preset_data = Some(PartialPreset::new(preset_name));
        true
    }

    /// Take the preset being declared, recording `NoPrecedingBegin` when there is none.
    fn take_pending(&mut self, callback: ReceiverCallback) -> (r: Option<PartialPreset>)
        ensures
            r == old(self).next_preset_data,
            final(self).next_preset_data is None,
            r is None ==> final(self)@ == old(self)@.fail(
                callback,
                ReceiverFaultModel::NoPrecedingBegin,
            ),
            r is Some ==> final(self)@ == (ReceiverModel { pending: None, ..old(self)@ }),
            old(self)@.well_formed(),
    {
        proof {
            use_type_invariant(&*self);
        }
        let mut r = None;
        std::mem::swap(&mut r, &mut self.next_preset_data);
        if r.is_none() {
            self.fail(callback, ReceiverFault::NoPrecedingBegin);
        }
        r
    }

    /// Declare a plugin the current preset is meant for.
    pub fn add_plugin_id(&mut self, same_thread: bool, abi: RawText, id: RawText)
        ensures
            final(self)@ == old(self)@.after_add_plugin_id(same_thread, abi, id),
    {
        let cb = ReceiverCallback::AddPluginId;
        if !same_thread {
            self.fail(cb, ReceiverFault::WrongThread);
            return ;
        }
        let abi = match mandatory(abi, Argument::PluginAbi) {
            Ok(a) => a,
            Err(f) => {
                self.fail(cb, f);
                return ;
            },
        };
        let id = match mandatory(id, Argument::PluginId) {
            Ok(i) => i,
            Err(f) => {
                self.fail(cb, f);
                return ;
            },
        };
        let mut p = match self.take_pending(cb) {
            Some(p) => p,
            None => return ,
        };
        let ghost old_p = p@;
        proof {
            reveal_strlit("clap");
        }
        if crate::keyed::string_eq(abi.as_str(), "clap") {
            p.plugin_ids.push(PluginId { abi: PluginAbi::Clap, id });
            proof {
                assert(p@.plugin_ids =~= old_p.plugin_ids.push(
                    PluginIdModel { abi: PluginAbiModel::Clap, id: id@ },
                ));
            }
            self.next_preset_data = Some(p);
        } else if trimmed_eq_ignore_ascii_case_exec(abi.as_str(), "clap") {
            self.next_preset_data = Some(p);
            self.fail(cb, ReceiverFault::AbiTypo(abi));
        } else {
            let ghost av = abi@;
            p.plugin_ids.push(PluginId { abi: PluginAbi::Other(abi), id });
            proof {
                assert(p@.plugin_ids =~= old_p.plugin_ids.push(
                    PluginIdModel { abi: PluginAbiModel::Other(av), id: id@ },
                ));
            }
            self.next_preset_data = Some(p);
        }
    }

    /// Set the current preset's soundpack.
    pub fn set_soundpack_id(&mut self, same_thread: bool, soundpack_id: RawText)
        ensures
            final(self)@ == old(self)@.after_set_soundpack_id(same_thread, soundpack_id),
    {
        let cb = ReceiverCallback::SetSoundpackId;
        if !same_thread {
            self.fail(cb, ReceiverFault::WrongThread);
            return ;
        }
        let v = match mandatory(soundpack_id, Argument::SoundpackId) {
            Ok(v) => v,
            Err(f) => {
                self.fail(cb, f);
                return ;
            },
        };
        let mut p = match self.take_pending(cb) {
            Some(p) => p,
            None => return ,
        };
        p.soundpack_id = Some(v);
        self.next_preset_data = Some(p);
    }

    /// Set the current preset's flags.
    pub fn set_flags(&mut self, same_thread: bool, flags: u32)
        ensures
            final(self)@ == old(self)@.after_set_flags(same_thread, flags),
    {
        let cb = ReceiverCallback::SetFlags;
        if !same_thread {
            self.fail(cb, ReceiverFault::WrongThread);
            return ;
        }
        let mut p = match self.take_pending(cb) {
            Some(p) => p,
            None => return ,
        };
        p.flags = Some(Flags::from_raw(flags));
        self.next_preset_data = Some(p);
    }

    /// Add a creator to the current preset.
    pub fn add_creator(&mut self, same_thread: bool, creator: RawText)
        ensures
            final(self)@ == old(self)@.after_add_creator(same_thread, creator),
    {
        let cb = ReceiverCallback::AddCreator;
        if !same_thread {
            self.fail(cb, ReceiverFault::WrongThread);
            return ;
        }
        let v = match mandatory(creator, Argument::Creator) {
            Ok(v) => v,
            Err(f) => {
                self.fail(cb, f);
                return ;
            },
        };
        let mut p = match self.take_pending(cb) {
            Some(p) => p,
            None => return ,
        };
        let ghost old_p = p@;
        let ghost vv = v@;
        p.creators.push(v);
        proof {
            assert(p@.creators =~= old_p.creators.push(vv));
        }
        self.next_preset_data = Some(p);
    }

    /// Set the current preset's description.
    pub fn set_description(&mut self, same_thread: bool, description: RawText)
        ensures
            final(self)@ == old(self)@.after_set_description(same_thread, description),
    {
        let cb = ReceiverCallback::SetDescription;
        if !same_thread {
            self.fail(cb, ReceiverFault::WrongThread);
            return ;
        }
        let v = match mandatory(description, Argument::Description) {
            Ok(v) => v,
            Err(f) => {
                self.fail(cb, f);
                return ;
            },
        };
        let mut p = match self.take_pending(cb) {
            Some(p) => p,
            None => return ,
        };
        p.description = Some(v);
        self.next_preset_data = Some(p);
    }

    /// Set the current preset's creation and modification times, in seconds since the Unix
    /// epoch. At least one of them must be known.
    pub fn set_timestamps(&mut self, same_thread: bool, creation_time: u64, modification_time: u64)
        ensures
            final(self)@ == old(self)@.after_set_timestamps(
                same_thread,
                creation_time,
                modification_time,
            ),
    {
        let cb = ReceiverCallback::SetTimestamps;
        if !same_thread {
            self.fail(cb, ReceiverFault::WrongThread);
            return ;
        }
        let c = match timestamp(creation_time, TimestampKind::Creation) {
            Ok(v) => v,
            Err(f) => {
                self.fail(cb, f);
                return ;
            },
        };
        let m = match timestamp(modification_time, TimestampKind::Modification) {
            Ok(v) => v,
            Err(f) => {
                self.fail(cb, f);
                return ;
            },
        };
        if c.is_none() && m.is_none() {
            self.fail(cb, ReceiverFault::BothTimestampsUnknown);
            return ;
        }
        let mut p = match self.take_pending(cb) {
            Some(p) => p,
            None => return ,
        };
        p.creation_time = c;
        p.modification_time = m;
        self.next_preset_data = Some(p);
    }

    /// Add a feature to the current preset.
    pub fn add_feature(&mut self, same_thread: bool, feature: RawText)
        ensures
            final(self)@ == old(self)@.after_add_feature(same_thread, feature),
    {
        let cb = ReceiverCallback::AddFeature;
        if !same_thread {
            self.fail(cb, ReceiverFault::WrongThread);
            return ;
        }
        let v = match mandatory(feature, Argument::Feature) {
            Ok(v) => v,
            Err(f) => {
                self.fail(cb, f);
                return ;
            },
        };
        let mut p = match self.take_pending(cb) {
            Some(p) => p,
            None => return ,
        };
        let ghost old_p = p@;
        let ghost vv = v@;
        p.features.push(v);
        proof {
            assert(p@.features =~= old_p.features.push(vv));
        }
        self.next_preset_data = Some(p);
    }

    /// Store a key-value pair of extra information on the current preset, replacing an earlier
    /// value for the same key.
    pub fn add_extra_info(&mut self, same_thread: bool, key: RawText, value: RawText)
        ensures
            final(self)@ == old(self)@.after_add_extra_info(same_thread, key, value),
    {
        let cb = ReceiverCallback::AddExtraInfo;
        if !same_thread {
            self.fail(cb, ReceiverFault::WrongThread);
            return ;
        }
        let k = match mandatory(key, Argument::Key) {
            Ok(v) => v,
            Err(f) => {
                self.fail(cb, f);
                return ;
            },
        };
        let v = match mandatory(value, Argument::Value) {
            Ok(v) => v,
            Err(f) => {
                self.fail(cb, f);
                return ;
            },
        };
        let mut p = match self.take_pending(cb) {
            Some(p) => p,
            None => return ,
        };
        p.extra_info.insert(k, v);
        self.next_preset_data = Some(p);
    }

    /// Finish the declarations: write out the pending preset and hand over what was collected,
    /// leaving the receiver empty. An error while writing out the pending preset is returned
    /// without a callback; otherwise the kept error or the presets are returned.
    pub fn finish(&mut self) -> (r: Result<Option<PresetFile>, ReceiverError>)
        requires
            old(self)@.flush_is_defined(),
        ensures
            match old(self)@.flush().1 {
                Err(f) => {
                    &&& outcome_view(r) == Err::<Option<PresetFileModel>, ReceiverErrorModel>(
                        ReceiverErrorModel { callback: None, fault: f },
                    )
                    &&& final(self)@ == old(self)@.flush().0
                },
                Ok(_) => {
                    &&& outcome_view(r) == old(self)@.flush().0.result
                    &&& final(self)@ == (ReceiverModel { result: Ok(None), ..old(self)@.flush().0 })
                },
            },
    {
        match self.flush_preset() {
            Err(f) => Err(ReceiverError { callback: None, fault: f }),
            Ok(_) => {
                let mut r = Ok(None);
                std::mem::swap(&mut r, &mut self.result);
                r
            },
        }
    }
}

/// Once an error is kept, no callback replaces it, and writing out the pending preset keeps it
/// too: `finish()` then reports the first error that happened.
pub proof fn lemma_first_error_kept(
    m: ReceiverModel,
    same_thread: bool,
    a: RawText,
    b: RawText,
    os_error: i32,
    flags: u32,
    creation: u64,
    modification: u64,
)
    requires
        m.result is Err,
    ensures
        m.after_on_error(same_thread, os_error, a).result == m.result,
        m.after_begin_preset(same_thread, a, b).0.result == m.result,
        !m.after_begin_preset(same_thread, a, b).1,
        m.after_add_plugin_id(same_thread, a, b).result == m.result,
        m.after_set_soundpack_id(same_thread, a).result == m.result,
        m.after_set_flags(same_thread, flags).result == m.result,
        m.after_add_creator(same_thread, a).result == m.result,
        m.after_set_description(same_thread, a).result == m.result,
        m.after_set_timestamps(same_thread, creation, modification).result == m.result,
        m.after_add_feature(same_thread, a).result == m.result,
        m.after_add_extra_info(same_thread, a, b).result == m.result,
        m.flush().1 is Ok,
        m.flush().0.result == m.result,
{
}

} // verus!
