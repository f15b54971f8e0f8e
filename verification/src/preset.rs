//! Data declared by a plugin's preset discovery provider: locations, flags, timestamps and the
//! presets themselves.

use crate::keyed::KeyedList;
use crate::text::{
    RawText, TextError, mandatory_string, optional_string, spec_mandatory_string,
    spec_optional_string, starts_with_char, str_starts_with,
};
use vstd::prelude::*;

verus! {

/// Location flag: the preset is factory content.
pub const CLAP_PRESET_DISCOVERY_IS_FACTORY_CONTENT: u32 = 1;

/// Location flag: the preset is user content.
pub const CLAP_PRESET_DISCOVERY_IS_USER_CONTENT: u32 = 2;

/// Location flag: the preset is demo content.
pub const CLAP_PRESET_DISCOVERY_IS_DEMO_CONTENT: u32 = 4;

/// Location flag: the preset is a favorite.
pub const CLAP_PRESET_DISCOVERY_IS_FAVORITE: u32 = 8;

/// Location kind: an absolute path to a file or a directory.
pub const CLAP_PRESET_DISCOVERY_LOCATION_FILE: u32 = 0;

/// Location kind: data stored within the plugin's library.
pub const CLAP_PRESET_DISCOVERY_LOCATION_PLUGIN: u32 = 1;

/// The timestamp value that means "unknown".
pub const CLAP_TIMESTAMP_UNKNOWN: u64 = 0;

/// The first second (since the Unix epoch) that `time::OffsetDateTime` can represent.
pub const MIN_UNIX_SECONDS: i128 = -377705116800;

/// The last second (since the Unix epoch) that `time::OffsetDateTime` can represent.
pub const MAX_UNIX_SECONDS: i128 = 253402300799;

#[verifier::external_type_specification]
#[verifier::external_body]
pub struct ExOffsetDateTime(time::OffsetDateTime);

#[verifier::external_type_specification]
#[verifier::external_body]
pub struct ExComponentRange(time::error::ComponentRange);

/// The instant `nanos` nanoseconds after the Unix epoch, in UTC.
pub uninterp spec fn utc_instant_at(nanos: i128) -> time::OffsetDateTime;

/// Calls `time::OffsetDateTime::from_unix_timestamp_nanos`. Its source rounds the timestamp down
/// to whole seconds and fails exactly when those seconds fall outside the years -9999 to 9999
/// (the crate's range without its `large-dates` feature); otherwise it gives the instant at that
/// timestamp in UTC.
#[verifier::external_body]
fn offset_date_time_from_unix_nanos(nanos: i128) -> (r: Result<
    time::OffsetDateTime,
    time::error::ComponentRange,
>)
    ensures
        r is Ok <==> MIN_UNIX_SECONDS <= nanos / 1_000_000_000 <= MAX_UNIX_SECONDS,
        r matches Ok(t) ==> t == utc_instant_at(nanos),
{
    time::OffsetDateTime::from_unix_timestamp_nanos(nanos)
}

/// The last timestamp (in seconds since the Unix epoch) that [`parse_timestamp`] accepts: the
/// end of the year 9999.
pub const MAX_TIMESTAMP_SECONDS: u64 = 253402300799;

/// What [`parse_timestamp`] gives for a `clap_timestamp`, in seconds since the Unix epoch.
pub open spec fn spec_parse_timestamp(timestamp: u64) -> Result<Option<time::OffsetDateTime>, ()> {
    if timestamp == CLAP_TIMESTAMP_UNKNOWN {
        Ok(None)
    } else if timestamp <= MAX_TIMESTAMP_SECONDS {
        Ok(Some(utc_instant_at((timestamp * 1_000_000_000) as i128)))
    } else {
        Err(())
    }
}

/// Convert a `clap_timestamp` (seconds since the Unix epoch) to a date. The value
/// `CLAP_TIMESTAMP_UNKNOWN` gives `None`; a timestamp past the year 9999 is an error.
pub fn parse_timestamp(timestamp: u64) -> (r: Result<Option<time::OffsetDateTime>, ()>)
    ensures
        r == spec_parse_timestamp(timestamp),
{
    if timestamp == CLAP_TIMESTAMP_UNKNOWN {
        return Ok(None);
    }
    let nanos: i128 = (timestamp as i128) * 1_000_000_000;
    assert(nanos / 1_000_000_000 == timestamp) by (nonlinear_arith)
        requires
            nanos == timestamp * 1_000_000_000,
            timestamp >= 0,
    ;
    match offset_date_time_from_unix_nanos(nanos) {
        Ok(t) => Ok(Some(t)),
        Err(_) => Err(()),
    }
}

/// The flags of a location, a soundpack or a preset.
#[derive(Clone, Copy, PartialEq, Eq, Structural, Debug)]
pub struct Flags {
    pub is_factory_content: bool,
    pub is_user_content: bool,
    pub is_demo_content: bool,
    pub is_favorite: bool,
}

impl Flags {
    /// The flags that a raw flag bit field declares.
    pub open spec fn spec_from_raw(bits: u32) -> Flags {
        Flags {
            is_factory_content: bits & CLAP_PRESET_DISCOVERY_IS_FACTORY_CONTENT != 0,
            is_user_content: bits & CLAP_PRESET_DISCOVERY_IS_USER_CONTENT != 0,
            is_demo_content: bits & CLAP_PRESET_DISCOVERY_IS_DEMO_CONTENT != 0,
            is_favorite: bits & CLAP_PRESET_DISCOVERY_IS_FAVORITE != 0,
        }
    }

    /// Read the flags from a raw flag bit field. Other bits are ignored.
    pub fn from_raw(bits: u32) -> (r: Flags)
        ensures
            r == Self::spec_from_raw(bits),
    {
        Flags {
            is_factory_content: bits & CLAP_PRESET_DISCOVERY_IS_FACTORY_CONTENT != 0,
            is_user_content: bits & CLAP_PRESET_DISCOVERY_IS_USER_CONTENT != 0,
            is_demo_content: bits & CLAP_PRESET_DISCOVERY_IS_DEMO_CONTENT != 0,
            is_favorite: bits & CLAP_PRESET_DISCOVERY_IS_FAVORITE != 0,
        }
    }
}

/// The CLAP preset discovery flags are bit 1 for factory content, 2 for user content, 4 for
/// demo content and 8 for favorites; other bits are ignored.
pub proof fn lemma_flag_bits(bits: u32)
    ensures
        Flags::spec_from_raw(bits).is_factory_content == (bits & 1 != 0),
        Flags::spec_from_raw(bits).is_user_content == (bits & 2 != 0),
        Flags::spec_from_raw(bits).is_demo_content == (bits & 4 != 0),
        Flags::spec_from_raw(bits).is_favorite == (bits & 8 != 0),
        Flags::spec_from_raw(bits) == Flags::spec_from_raw(bits & 15),
{
    assert((bits & 15) & 1 == bits & 1 && (bits & 15) & 2 == bits & 2 && (bits & 15) & 4 == bits & 4
        && (bits & 15) & 8 == bits & 8) by (bit_vector);
}

/// A location as used by the preset discovery API.
pub enum LocationValue {
    /// An absolute path to a file or a directory. The path may not exist.
    File(String),
    /// Data stored within the plugin's library.
    Internal,
}

/// Why a declared location was refused.
pub enum LocationError {
    /// A file location with a null pointer.
    NullFileLocation,
    /// A file location whose string is not valid UTF-8.
    InvalidFileLocation,
    /// A file location that is not an absolute path.
    NotAbsolute(String),
    /// A plugin location with a pointer that is not null.
    NonNullPluginLocation,
    /// An unknown location kind.
    UnknownKind(u32),
}

/// The last component of a path, as `std::path::Path::file_name` finds it.
pub uninterp spec fn file_name_of(path: Seq<char>) -> Option<Seq<char>>;

/// Calls `std::path::Path::file_name` on a path. It returns the final component of the path, or
/// nothing when the path ends in `..` or is a root or prefix; this is believed, not proved, and
/// is given a name rather than restated.
#[verifier::external_body]
fn path_file_name(path: &str) -> (r: Option<String>)
    ensures
        match r {
            Some(n) => file_name_of(path@) == Some(n@),
            None => file_name_of(path@) is None,
        },
{
    match std::path::Path::new(path).file_name() {
        Some(name) => Some(name.to_string_lossy().into_owned()),
        None => None,
    }
}

impl LocationValue {
    /// What [`LocationValue::new`] gives for a location kind and a location string.
    pub open spec fn spec_new(kind: u32, location: RawText) -> Result<LocationValue, LocationError> {
        if kind == CLAP_PRESET_DISCOVERY_LOCATION_FILE {
            match location {
                RawText::Null => Err(LocationError::NullFileLocation),
                RawText::InvalidUtf8 => Err(LocationError::InvalidFileLocation),
                RawText::Text(s) => if starts_with_char(s@, '/') {
                    Ok(LocationValue::File(s))
                } else {
                    Err(LocationError::NotAbsolute(s))
                },
            }
        } else if kind == CLAP_PRESET_DISCOVERY_LOCATION_PLUGIN {
            match location {
                RawText::Null => Ok(LocationValue::Internal),
                _ => Err(LocationError::NonNullPluginLocation),
            }
        } else {
            Err(LocationError::UnknownKind(kind))
        }
    }

    /// Build a location from a location kind and a location string. File locations must be
    /// absolute paths; plugin locations must have a null location string.
    pub fn new(kind: u32, location: RawText) -> (r: Result<LocationValue, LocationError>)
        ensures
            r == Self::spec_new(kind, location),
    {
        if kind == CLAP_PRESET_DISCOVERY_LOCATION_FILE {
            match location {
                RawText::Null => Err(LocationError::NullFileLocation),
                RawText::InvalidUtf8 => Err(LocationError::InvalidFileLocation),
                RawText::Text(s) => if str_starts_with(s.as_str(), '/') {
                    Ok(LocationValue::File(s))
                } else {
                    Err(LocationError::NotAbsolute(s))
                },
            }
        } else if kind == CLAP_PRESET_DISCOVERY_LOCATION_PLUGIN {
            match location {
                RawText::Null => Ok(LocationValue::Internal),
                _ => Err(LocationError::NonNullPluginLocation),
            }
        } else {
            Err(LocationError::UnknownKind(kind))
        }
    }

    /// The base name of this location: `<plugin>` for internal presets, the path's last
    /// component for files, and nothing when the path has no file name.
    pub open spec fn spec_file_name(&self) -> Option<Seq<char>> {
        match self {
            LocationValue::Internal => Some("<plugin>"@),
            LocationValue::File(path) => file_name_of(path@),
        }
    }

    /// Get a file name (only the base name) for this location.
    pub fn file_name(&self) -> (r: Option<String>)
        ensures
            match r {
                Some(n) => self.spec_file_name() == Some(n@),
                None => self.spec_file_name() is None,
            },
    {
        match self {
            LocationValue::Internal => Some(String::from_str("<plugin>")),
            LocationValue::File(path) => path_file_name(path.as_str()),
        }
    }
}

/// The name of a preset. Only presets in a container file may set a name explicitly; other
/// presets are named after their file.
pub enum PresetName {
    Explicit(String),
    Filename(String),
}

/// The abstract value of a [`PresetName`].
pub enum PresetNameModel {
    Explicit(Seq<char>),
    Filename(Seq<char>),
}

impl View for PresetName {
    type V = PresetNameModel;

    open spec fn view(&self) -> PresetNameModel {
        match self {
            PresetName::Explicit(n) => PresetNameModel::Explicit(n@),
            PresetName::Filename(n) => PresetNameModel::Filename(n@),
        }
    }
}

/// The plugin ABI a preset was declared for.
pub enum PluginAbi {
    Clap,
    Other(String),
}

/// A plugin a preset was declared for.
pub struct PluginId {
    pub abi: PluginAbi,
    pub id: String,
}

/// The abstract value of a [`PluginAbi`].
pub enum PluginAbiModel {
    Clap,
    Other(Seq<char>),
}

/// The abstract value of a [`PluginId`].
pub struct PluginIdModel {
    pub abi: PluginAbiModel,
    pub id: Seq<char>,
}

impl View for PluginId {
    type V = PluginIdModel;

    open spec fn view(&self) -> PluginIdModel {
        PluginIdModel {
            abi: match self.abi {
                PluginAbi::Clap => PluginAbiModel::Clap,
                PluginAbi::Other(a) => PluginAbiModel::Other(a@),
            },
            id: self.id@,
        }
    }
}

/// A preset's flags, and whether they were inherited from its location.
#[derive(Clone, Copy, PartialEq, Eq, Structural, Debug)]
pub struct PresetFlags {
    pub flags: Flags,
    pub is_inherited: bool,
}

/// The abstract value of an optional string.
pub open spec fn opt_view(s: Option<String>) -> Option<Seq<char>> {
    match s {
        Some(v) => Some(v@),
        None => None,
    }
}

/// The abstract value of a list of strings.
pub open spec fn strings_view(v: Seq<String>) -> Seq<Seq<char>> {
    v.map_values(|s: String| s@)
}

/// The abstract value of a list of plugin IDs.
pub open spec fn plugin_ids_view(v: Seq<PluginId>) -> Seq<PluginIdModel> {
    v.map_values(|p: PluginId| p@)
}

/// Data for a preset that is still being declared, added bit by bit through the metadata
/// receiver.
pub struct PartialPreset {
    pub name: PresetName,
    pub plugin_ids: Vec<PluginId>,
    pub soundpack_id: Option<String>,
    /// When unset, the preset inherits its location's flags.
    pub flags: Option<Flags>,
    pub creators: Vec<String>,
    pub description: Option<String>,
    pub creation_time: Option<time::OffsetDateTime>,
    pub modification_time: Option<time::OffsetDateTime>,
    pub features: Vec<String>,
    pub extra_info: KeyedList<String>,
}

/// The abstract value of a [`PartialPreset`].
pub struct PartialPresetModel {
    pub name: PresetNameModel,
    pub plugin_ids: Seq<PluginIdModel>,
    pub soundpack_id: Option<Seq<char>>,
    pub flags: Option<Flags>,
    pub creators: Seq<Seq<char>>,
    pub description: Option<Seq<char>>,
    pub creation_time: Option<time::OffsetDateTime>,
    pub modification_time: Option<time::OffsetDateTime>,
    pub features: Seq<Seq<char>>,
    pub extra_info: Seq<(Seq<char>, Seq<char>)>,
}

impl View for PartialPreset {
    type V = PartialPresetModel;

    open spec fn view(&self) -> PartialPresetModel {
        PartialPresetModel {
            name: self.name@,
            plugin_ids: plugin_ids_view(self.plugin_ids@),
            soundpack_id: opt_view(self.soundpack_id),
            flags: self.flags,
            creators: strings_view(self.creators@),
            description: opt_view(self.description),
            creation_time: self.creation_time,
            modification_time: self.modification_time,
            features: strings_view(self.features@),
            extra_info: self.extra_info@,
        }
    }
}

impl PartialPresetModel {
    /// A preset with a name and nothing else declared yet.
    pub open spec fn empty(name: PresetNameModel) -> PartialPresetModel {
        PartialPresetModel {
            name,
            plugin_ids: Seq::empty(),
            soundpack_id: None,
            flags: None,
            creators: Seq::empty(),
            description: None,
            creation_time: None,
            modification_time: None,
            features: Seq::empty(),
            extra_info: Seq::empty(),
        }
    }

    /// The preset this data describes, or the error when no plugin ID was declared. Without
    /// flags of its own, the preset inherits its location's flags.
    pub open spec fn finalize(self, location_flags: Flags) -> Result<PresetModel, PresetNameModel> {
        if self.plugin_ids.len() == 0 {
            Err(self.name)
        } else {
            Ok(
                PresetModel {
                    name: self.name,
                    plugin_ids: self.plugin_ids,
                    soundpack_id: self.soundpack_id,
                    flags: match self.flags {
                        Some(flags) => PresetFlags { flags, is_inherited: false },
                        None => PresetFlags { flags: location_flags, is_inherited: true },
                    },
                    creators: self.creators,
                    description: self.description,
                    creation_time: self.creation_time,
                    modification_time: self.modification_time,
                    features: self.features,
                    extra_info: self.extra_info,
                },
            )
        }
    }
}

/// A preset as declared by the plugin.
pub struct Preset {
    pub name: PresetName,
    pub plugin_ids: Vec<PluginId>,
    pub soundpack_id: Option<String>,
    pub flags: PresetFlags,
    pub creators: Vec<String>,
    pub description: Option<String>,
    pub creation_time: Option<time::OffsetDateTime>,
    pub modification_time: Option<time::OffsetDateTime>,
    pub features: Vec<String>,
    pub extra_info: KeyedList<String>,
}

/// The abstract value of a [`Preset`].
pub struct PresetModel {
    pub name: PresetNameModel,
    pub plugin_ids: Seq<PluginIdModel>,
    pub soundpack_id: Option<Seq<char>>,
    pub flags: PresetFlags,
    pub creators: Seq<Seq<char>>,
    pub description: Option<Seq<char>>,
    pub creation_time: Option<time::OffsetDateTime>,
    pub modification_time: Option<time::OffsetDateTime>,
    pub features: Seq<Seq<char>>,
    pub extra_info: Seq<(Seq<char>, Seq<char>)>,
}

impl View for Preset {
    type V = PresetModel;

    open spec fn view(&self) -> PresetModel {
        PresetModel {
            name: self.name@,
            plugin_ids: plugin_ids_view(self.plugin_ids@),
            soundpack_id: opt_view(self.soundpack_id),
            flags: self.flags,
            creators: strings_view(self.creators@),
            description: opt_view(self.description),
            creation_time: self.creation_time,
            modification_time: self.modification_time,
            features: strings_view(self.features@),
            extra_info: self.extra_info@,
        }
    }
}

impl PartialPreset {
    /// Start the data for a preset with the given name.
    pub fn new(name: PresetName) -> (r: PartialPreset)
        ensures
            r@ == PartialPresetModel::empty(name@),
    {
        let r = PartialPreset {
            name,
            plugin_ids: Vec::new(),
            soundpack_id: None,
            flags: None,
            creators: Vec::new(),
            description: None,
            creation_time: None,
            modification_time: None,
            features: Vec::new(),
            extra_info: KeyedList::new(),
        };
        assert(r@.plugin_ids =~= Seq::empty());
        assert(r@.creators =~= Seq::empty());
        assert(r@.features =~= Seq::empty());
        r
    }

    /// Convert this data to a preset. Fails, handing back the preset's name, when no plugin ID
    /// was declared. Without flags of its own, the preset inherits `location_flags`.
    pub fn finalize(self, location_flags: Flags) -> (r: Result<Preset, PresetName>)
        ensures
            match r {
                Ok(p) => self@.finalize(location_flags) == Ok::<PresetModel, PresetNameModel>(p@),
                Err(n) => self@.finalize(location_flags) == Err::<PresetModel, PresetNameModel>(
                    n@,
                ),
            },
    {
        if self.plugin_ids.len() == 0 {
            return Err(self.name);
        }
        let flags = match self.flags {
            Some(flags) => PresetFlags { flags, is_inherited: false },
            None => PresetFlags { flags: location_flags, is_inherited: true },
        };
        Ok(
            Preset {
                name: self.name,
                plugin_ids: self.plugin_ids,
                soundpack_id: self.soundpack_id,
                flags,
                creators: self.creators,
                description: self.description,
                creation_time: self.creation_time,
                modification_time: self.modification_time,
                features: self.features,
                extra_info: self.extra_info,
            },
        )
    }
}

} // verus!
