//! The host's side of a preset provider's indexer: during its initialization, the provider
//! declares the file types, locations and soundpacks it knows.

use crate::preset::{
    Flags, LocationError, LocationValue, parse_timestamp, spec_parse_timestamp,
};
use crate::text::{
    RawText, TextError, mandatory_string, optional_string, spec_mandatory_string,
    spec_optional_string, str_starts_with, starts_with_char,
};
use vstd::prelude::*;

verus! {

/// A file type as the provider declares it.
pub struct RawFileType {
    pub name: RawText,
    pub description: RawText,
    pub file_extension: RawText,
}

/// A location as the provider declares it.
pub struct RawLocation {
    pub flags: u32,
    pub name: RawText,
    pub kind: u32,
    pub location: RawText,
}

/// A soundpack as the provider declares it.
pub struct RawSoundpack {
    pub flags: u32,
    pub id: RawText,
    pub name: RawText,
    pub description: RawText,
    pub homepage_url: RawText,
    pub vendor: RawText,
    pub image_path: RawText,
    pub release_timestamp: u64,
}

/// A file type presets can be stored in.
pub struct FileType {
    pub name: String,
    pub description: Option<String>,
    /// The file extension, without a leading period.
    pub extension: String,
}

/// A place presets can be found.
pub struct Location {
    pub flags: Flags,
    pub name: String,
    pub value: LocationValue,
}

/// A soundpack, a collection of presets.
pub struct Soundpack {
    pub flags: Flags,
    pub id: String,
    pub name: String,
    pub description: Option<String>,
    pub homepage_url: Option<String>,
    pub vendor: Option<String>,
    pub image_path: Option<String>,
    pub release_timestamp: Option<time::OffsetDateTime>,
}

/// The abstract value of an optional string.
pub open spec fn opt_seq(s: Option<String>) -> Option<Seq<char>> {
    match s {
        Some(v) => Some(v@),
        None => None,
    }
}

/// The abstract value of a [`FileType`].
pub struct FileTypeModel {
    pub name: Seq<char>,
    pub description: Option<Seq<char>>,
    pub extension: Seq<char>,
}

impl View for FileType {
    type V = FileTypeModel;

    open spec fn view(&self) -> FileTypeModel {
        FileTypeModel {
            name: self.name@,
            description: opt_seq(self.description),
            extension: self.extension@,
        }
    }
}

/// The abstract value of a [`Location`].
pub struct LocationModel {
    pub flags: Flags,
    pub name: Seq<char>,
    pub value: LocationValue,
}

impl View for Location {
    type V = LocationModel;

    open spec fn view(&self) -> LocationModel {
        LocationModel { flags: self.flags, name: self.name@, value: self.value }
    }
}

/// The abstract value of a [`Soundpack`].
pub struct SoundpackModel {
    pub flags: Flags,
    pub id: Seq<char>,
    pub name: Seq<char>,
    pub description: Option<Seq<char>>,
    pub homepage_url: Option<Seq<char>>,
    pub vendor: Option<Seq<char>>,
    pub image_path: Option<Seq<char>>,
    pub release_timestamp: Option<time::OffsetDateTime>,
}

impl View for Soundpack {
    type V = SoundpackModel;

    open spec fn view(&self) -> SoundpackModel {
        SoundpackModel {
            flags: self.flags,
            id: self.id@,
            name: self.name@,
            description: opt_seq(self.description),
            homepage_url: opt_seq(self.homepage_url),
            vendor: opt_seq(self.vendor),
            image_path: opt_seq(self.image_path),
            release_timestamp: self.release_timestamp,
        }
    }
}

/// The fields of the declared structures.
#[derive(Clone, Copy, PartialEq, Eq, Structural, Debug)]
pub enum Field {
    Name,
    Description,
    FileExtension,
    Id,
    HomepageUrl,
    Vendor,
    ImagePath,
    ReleaseTimestamp,
}

/// Why a declared structure was refused.
pub enum DeclarationError {
    /// The pointer to the structure is null.
    Null,
    /// A string field was refused.
    Field(Field, TextError),
    /// A file extension that starts with a period.
    LeadingPeriod(String),
    /// The location's kind and string do not fit together.
    Location(LocationError),
    /// The release timestamp is past the year 9999.
    InvalidTimestamp,
}

/// What [`FileType::from_descriptor`] decides for a declared file type: a name, an optional
/// description, and an extension that does not start with a period.
pub open spec fn spec_file_type(descriptor: Option<RawFileType>) -> Result<FileTypeModel, DeclarationError> {
    match descriptor {
        None => Err(DeclarationError::Null),
        Some(d) => match spec_mandatory_string(d.name) {
            Err(e) => Err(DeclarationError::Field(Field::Name, e)),
            Ok(name) => match spec_optional_string(d.description) {
                Err(e) => Err(DeclarationError::Field(Field::Description, e)),
                Ok(description) => match spec_mandatory_string(d.file_extension) {
                    Err(e) => Err(DeclarationError::Field(Field::FileExtension, e)),
                    Ok(ext) => if starts_with_char(ext@, '.') {
                        Err(DeclarationError::LeadingPeriod(ext))
                    } else {
                        Ok(
                            FileTypeModel {
                                name: name@,
                                description: opt_seq(description),
                                extension: ext@,
                            },
                        )
                    },
                },
            },
        },
    }
}

impl FileType {
    /// Read a declared file type; `None` stands for a null pointer.
    pub fn from_descriptor(descriptor: Option<RawFileType>) -> (r: Result<FileType, DeclarationError>)
        ensures
            match r {
                Ok(f) => spec_file_type(descriptor) == Ok::<FileTypeModel, DeclarationError>(f@),
                Err(e) => spec_file_type(descriptor) == Err::<FileTypeModel, DeclarationError>(e),
            },
    {
        let d = match descriptor {
            None => return Err(DeclarationError::Null),
            Some(d) => d,
        };
        let RawFileType { name, description, file_extension } = d;
        let name = match mandatory_string(name) {
            Ok(s) => s,
            Err(e) => return Err(DeclarationError::Field(Field::Name, e)),
        };
        let description = match optional_string(description) {
            Ok(s) => s,
            Err(e) => return Err(DeclarationError::Field(Field::Description, e)),
        };
        let extension = match mandatory_string(file_extension) {
            Ok(s) => s,
            Err(e) => return Err(DeclarationError::Field(Field::FileExtension, e)),
        };
        if str_starts_with(extension.as_str(), '.') {
            return Err(DeclarationError::LeadingPeriod(extension));
        }
        Ok(FileType { name, description, extension })
    }
}

/// What [`Location::from_descriptor`] decides for a declared location.
pub open spec fn spec_location(descriptor: Option<RawLocation>) -> Result<LocationModel, DeclarationError> {
    match descriptor {
        None => Err(DeclarationError::Null),
        Some(d) => match spec_mandatory_string(d.name) {
            Err(e) => Err(DeclarationError::Field(Field::Name, e)),
            Ok(name) => match LocationValue::spec_new(d.kind, d.location) {
                Err(e) => Err(DeclarationError::Location(e)),
                Ok(value) => Ok(
                    LocationModel { flags: Flags::spec_from_raw(d.flags), name: name@, value },
                ),
            },
        },
    }
}

impl Location {
    /// Read a declared location; `None` stands for a null pointer.
    pub fn from_descriptor(descriptor: Option<RawLocation>) -> (r: Result<Location, DeclarationError>)
        ensures
            match r {
                Ok(l) => spec_location(descriptor) == Ok::<LocationModel, DeclarationError>(l@),
                Err(e) => spec_location(descriptor) == Err::<LocationModel, DeclarationError>(e),
            },
    {
        let d = match descriptor {
            None => return Err(DeclarationError::Null),
            Some(d) => d,
        };
        let RawLocation { flags, name, kind, location } = d;
        let flags = Flags::from_raw(flags);
        let name = match mandatory_string(name) {
            Ok(s) => s,
            Err(e) => return Err(DeclarationError::Field(Field::Name, e)),
        };
        let value = match LocationValue::new(kind, location) {
            Ok(v) => v,
            Err(e) => return Err(DeclarationError::Location(e)),
        };
        Ok(Location { flags, name, value })
    }
}

/// What [`Soundpack::from_descriptor`] decides for a declared soundpack.
pub open spec fn spec_soundpack(descriptor: Option<RawSoundpack>) -> Result<SoundpackModel, DeclarationError> {
    match descriptor {
        None => Err(DeclarationError::Null),
        Some(d) => match spec_mandatory_string(d.id) {
            Err(e) => Err(DeclarationError::Field(Field::Id, e)),
            Ok(id) => match spec_mandatory_string(d.name) {
                Err(e) => Err(DeclarationError::Field(Field::Name, e)),
                Ok(name) => match spec_optional_string(d.description) {
                    Err(e) => Err(DeclarationError::Field(Field::Description, e)),
                    Ok(description) => match spec_optional_string(d.homepage_url) {
                        Err(e) => Err(DeclarationError::Field(Field::HomepageUrl, e)),
                        Ok(homepage_url) => match spec_optional_string(d.vendor) {
                            Err(e) => Err(DeclarationError::Field(Field::Vendor, e)),
                            Ok(vendor) => match spec_optional_string(d.image_path) {
                                Err(e) => Err(DeclarationError::Field(Field::ImagePath, e)),
                                Ok(image_path) => match spec_parse_timestamp(d.release_timestamp) {
                                    Err(_) => Err(DeclarationError::InvalidTimestamp),
                                    Ok(release_timestamp) => Ok(
                                        SoundpackModel {
                                            flags: Flags::spec_from_raw(d.flags),
                                            id: id@,
                                            name: name@,
                                            description: opt_seq(description),
                                            homepage_url: opt_seq(homepage_url),
                                            vendor: opt_seq(vendor),
                                            image_path: opt_seq(image_path),
                                            release_timestamp,
                                        },
                                    ),
                                },
                            },
                        },
                    },
                },
            },
        },
    }
}

impl Soundpack {
    /// Read a declared soundpack; `None` stands for a null pointer.
    pub fn from_descriptor(descriptor: Option<RawSoundpack>) -> (r: Result<Soundpack, DeclarationError>)
        ensures
            match r {
                Ok(s) => spec_soundpack(descriptor) == Ok::<SoundpackModel, DeclarationError>(s@),
                Err(e) => spec_soundpack(descriptor) == Err::<SoundpackModel, DeclarationError>(e),
            },
    {
        let d = match descriptor {
            None => return Err(DeclarationError::Null),
            Some(d) => d,
        };
        let RawSoundpack {
            flags,
            id,
            name,
            description,
            homepage_url,
            vendor,
            image_path,
            release_timestamp,
        } = d;
        let flags = Flags::from_raw(flags);
        let id = match mandatory_string(id) {
            Ok(s) => s,
            Err(e) => return Err(DeclarationError::Field(Field::Id, e)),
        };
        let name = match mandatory_string(name) {
            Ok(s) => s,
            Err(e) => return Err(DeclarationError::Field(Field::Name, e)),
        };
        let description = match optional_string(description) {
            Ok(s) => s,
            Err(e) => return Err(DeclarationError::Field(Field::Description, e)),
        };
        let homepage_url = match optional_string(homepage_url) {
            Ok(s) => s,
            Err(e) => return Err(DeclarationError::Field(Field::HomepageUrl, e)),
        };
        let vendor = match optional_string(vendor) {
            Ok(s) => s,
            Err(e) => return Err(DeclarationError::Field(Field::Vendor, e)),
        };
        let image_path = match optional_string(image_path) {
            Ok(s) => s,
            Err(e) => return Err(DeclarationError::Field(Field::ImagePath, e)),
        };
        let release_timestamp = match parse_timestamp(release_timestamp) {
            Ok(t) => t,
            Err(_) => return Err(DeclarationError::InvalidTimestamp),
        };
        Ok(
            Soundpack {
                flags,
                id,
                name,
                description,
                homepage_url,
                vendor,
                image_path,
                release_timestamp,
            },
        )
    }
}

/// The data a provider declared during its initialization.
pub struct IndexerResults {
    pub file_types: Vec<FileType>,
    pub locations: Vec<Location>,
    pub soundpacks: Vec<Soundpack>,
}

/// The callbacks of the indexer.
#[derive(Clone, Copy, PartialEq, Eq, Structural, Debug)]
pub enum IndexerCallback {
    DeclareFiletype,
    DeclareLocation,
    DeclareSoundpack,
    GetExtension,
}

/// What went wrong in an indexer callback.
pub enum IndexerFault {
    /// The callback was made from another thread than the one that created the indexer.
    WrongThread,
    /// A declaration was refused.
    Declaration(DeclarationError),
    /// `get_extension()` was called with a null ID.
    NullExtensionId,
}

/// An error kept by the indexer.
pub enum IndexerError {
    /// A callback failed.
    Callback { callback: IndexerCallback, fault: IndexerFault },
    /// The results were already taken.
    AlreadyFinished,
}

/// The abstract value of the indexer: the first error, or what was declared so far.
pub enum IndexerModel {
    Failed(IndexerError),
    Collecting {
        file_types: Seq<FileTypeModel>,
        locations: Seq<LocationModel>,
        soundpacks: Seq<SoundpackModel>,
    },
}

impl IndexerModel {
    /// Record a fault in `callback`, unless an earlier error is kept already.
    pub open spec fn fail(self, callback: IndexerCallback, fault: IndexerFault) -> IndexerModel {
        match self {
            IndexerModel::Failed(_) => self,
            IndexerModel::Collecting { .. } => IndexerModel::Failed(IndexerError::Callback { callback, fault }),
        }
    }
}

/// The indexer handed to a preset provider.
pub struct Indexer {
    result: Result<IndexerResults, IndexerError>,
}

impl View for Indexer {
    type V = IndexerModel;

    closed spec fn view(&self) -> IndexerModel {
        match self.result {
            Err(e) => IndexerModel::Failed(e),
            Ok(r) => IndexerModel::Collecting {
                file_types: r.file_types@.map_values(|f: FileType| f@),
                locations: r.locations@.map_values(|l: Location| l@),
                soundpacks: r.soundpacks@.map_values(|s: Soundpack| s@),
            },
        }
    }
}

impl Indexer {
    /// An indexer with nothing declared.
    pub fn new() -> (r: Indexer)
        ensures
            r@ == (IndexerModel::Collecting {
                file_types: Seq::empty(),
                locations: Seq::empty(),
                soundpacks: Seq::empty(),
            }),
    {
        let r = Indexer {
            result: Ok(
                IndexerResults { file_types: Vec::new(), locations: Vec::new(), soundpacks: Vec::new() },
            ),
        };
        proof {
            let empty_f: Seq<FileType> = Seq::empty();
            let empty_l: Seq<Location> = Seq::empty();
            let empty_s: Seq<Soundpack> = Seq::empty();
            assert(empty_f.map_values(|f: FileType| f@) =~= Seq::<FileTypeModel>::empty());
            assert(empty_l.map_values(|l: Location| l@) =~= Seq::<LocationModel>::empty());
            assert(empty_s.map_values(|s: Soundpack| s@) =~= Seq::<SoundpackModel>::empty());
        }
        r
    }

    /// Record an error, unless one is kept already.
    fn fail(&mut self, callback: IndexerCallback, fault: IndexerFault)
        ensures
            final(self)@ == old(self)@.fail(callback, fault),
    {
        if self.result.is_ok() {
            self.result = Err(IndexerError::Callback { callback, fault });
        }
    }

    /// The provider declares a file type. Returns whether it was accepted. After an error, or
    /// after the results were taken, nothing is accepted.
    pub fn declare_filetype(&mut self, same_thread: bool, descriptor: Option<RawFileType>) -> (r: bool)
        ensures
            r <==> (same_thread && old(self)@ is Collecting && spec_file_type(descriptor) is Ok),
            final(self)@ == if !same_thread {
                old(self)@.fail(IndexerCallback::DeclareFiletype, IndexerFault::WrongThread)
            } else if old(self)@ is Failed {
                old(self)@
            } else {
                match spec_file_type(descriptor) {
                    Ok(_) => IndexerModel::Collecting {
                        file_types: old(self)@->file_types.push(spec_file_type(descriptor)->Ok_0),
                        locations: old(self)@->locations,
                        soundpacks: old(self)@->soundpacks,
                    },
                    Err(e) => old(self)@.fail(IndexerCallback::DeclareFiletype, IndexerFault::Declaration(e)),
                }
            },
    {
        if !same_thread {
            self.fail(IndexerCallback::DeclareFiletype, IndexerFault::WrongThread);
            return false;
        }
        if self.result.is_err() {
            return false;
        }
        match FileType::from_descriptor(descriptor) {
            Ok(f) => {
                let ghost fv = f@;
                let mut taken = Err(IndexerError::AlreadyFinished);
                std::mem::swap(&mut taken, &mut self.result);
                match taken {
                    Ok(mut results) => {
                        let ghost before = results.file_types@;
                        results.file_types.push(f);
                        assert(results.file_types@.map_values(|x: FileType| x@) =~= before.map_values(
                            |x: FileType| x@,
                        ).push(fv));
                        self.result = Ok(results);
                    },
                    Err(e) => {
                        self.result = Err(e);
                    },
                }
                true
            },
            Err(e) => {
                self.fail(IndexerCallback::DeclareFiletype, IndexerFault::Declaration(e));
                false
            },
        }
    }

    /// The provider declares a location. Returns whether it was accepted.
    pub fn declare_location(&mut self, same_thread: bool, descriptor: Option<RawLocation>) -> (r: bool)
        ensures
            r <==> (same_thread && old(self)@ is Collecting && spec_location(descriptor) is Ok),
            final(self)@ == if !same_thread {
                old(self)@.fail(IndexerCallback::DeclareLocation, IndexerFault::WrongThread)
            } else if old(self)@ is Failed {
                old(self)@
            } else {
                match spec_location(descriptor) {
                    Ok(_) => IndexerModel::Collecting {
                        file_types: old(self)@->file_types,
                        locations: old(self)@->locations.push(spec_location(descriptor)->Ok_0),
                        soundpacks: old(self)@->soundpacks,
                    },
                    Err(e) => old(self)@.fail(IndexerCallback::DeclareLocation, IndexerFault::Declaration(e)),
                }
            },
    {
        if !same_thread {
            self.fail(IndexerCallback::DeclareLocation, IndexerFault::WrongThread);
            return false;
        }
        if self.result.is_err() {
            return false;
        }
        match Location::from_descriptor(descriptor) {
            Ok(l) => {
                let ghost lv = l@;
                let mut taken = Err(IndexerError::AlreadyFinished);
                std::mem::swap(&mut taken, &mut self.result);
                match taken {
                    Ok(mut results) => {
                        let ghost before = results.locations@;
                        results.locations.push(l);
                        assert(results.locations@.map_values(|x: Location| x@) =~= before.map_values(
                            |x: Location| x@,
                        ).push(lv));
                        self.result = Ok(results);
                    },
                    Err(e) => {
                        self.result = Err(e);
                    },
                }
                true
            },
            Err(e) => {
                self.fail(IndexerCallback::DeclareLocation, IndexerFault::Declaration(e));
                false
            },
        }
    }

    /// The provider declares a soundpack. Returns whether it was accepted.
    pub fn declare_soundpack(&mut self, same_thread: bool, descriptor: Option<RawSoundpack>) -> (r: bool)
        ensures
            r <==> (same_thread && old(self)@ is Collecting && spec_soundpack(descriptor) is Ok),
            final(self)@ == if !same_thread {
                old(self)@.fail(IndexerCallback::DeclareSoundpack, IndexerFault::WrongThread)
            } else if old(self)@ is Failed {
                old(self)@
            } else {
                match spec_soundpack(descriptor) {
                    Ok(_) => IndexerModel::Collecting {
                        file_types: old(self)@->file_types,
                        locations: old(self)@->locations,
                        soundpacks: old(self)@->soundpacks.push(spec_soundpack(descriptor)->Ok_0),
                    },
                    Err(e) => old(self)@.fail(IndexerCallback::DeclareSoundpack, IndexerFault::Declaration(e)),
                }
            },
    {
        if !same_thread {
            self.fail(IndexerCallback::DeclareSoundpack, IndexerFault::WrongThread);
            return false;
        }
        if self.result.is_err() {
            return false;
        }
        match Soundpack::from_descriptor(descriptor) {
            Ok(s) => {
                let ghost sv = s@;
                let mut taken = Err(IndexerError::AlreadyFinished);
                std::mem::swap(&mut taken, &mut self.result);
                match taken {
                    Ok(mut results) => {
                        let ghost before = results.soundpacks@;
                        results.soundpacks.push(s);
                        assert(results.soundpacks@.map_values(|x: Soundpack| x@) =~= before.map_values(
                            |x: Soundpack| x@,
                        ).push(sv));
                        self.result = Ok(results);
                    },
                    Err(e) => {
                        self.result = Err(e);
                    },
                }
                true
            },
            Err(e) => {
                self.fail(IndexerCallback::DeclareSoundpack, IndexerFault::Declaration(e));
                false
            },
        }
    }

    /// The provider asks for an extension of the indexer. There are none; a null ID is an error.
    pub fn get_extension(&mut self, extension_id_is_null: bool)
        ensures
            final(self)@ == if extension_id_is_null {
                old(self)@.fail(IndexerCallback::GetExtension, IndexerFault::NullExtensionId)
            } else {
                old(self)@
            },
    {
        if extension_id_is_null {
            self.fail(IndexerCallback::GetExtension, IndexerFault::NullExtensionId);
        }
    }

    /// Take the declared data, or the first error. The results can be taken once: the indexer
    /// then refuses everything and a second call reports that it already finished.
    pub fn finish(&mut self) -> (r: Result<IndexerResults, IndexerError>)
        ensures
            final(self)@ == IndexerModel::Failed(IndexerError::AlreadyFinished),
            match old(self)@ {
                IndexerModel::Collecting { file_types, locations, soundpacks } => r matches Ok(res)
                    && res.file_types@.map_values(|f: FileType| f@) == file_types
                    && res.locations@.map_values(|l: Location| l@) == locations
                    && res.soundpacks@.map_values(|s: Soundpack| s@) == soundpacks,
                IndexerModel::Failed(e) => r matches Err(kept) && kept == e,
            },
    {
        let mut taken = Err(IndexerError::AlreadyFinished);
        std::mem::swap(&mut taken, &mut self.result);
        taken
    }
}

/// Whether a file found in a declared directory is crawled: when the provider declared file
/// types, only files with one of their extensions are.
pub fn extension_allowed(allowed: &Vec<String>, extension: Option<&str>) -> (r: bool)
    ensures
        r == (allowed@.len() == 0 || (extension matches Some(e) && exists|i: int|
            0 <= i < allowed@.len() && (#[trigger] allowed@[i])@ == e@)),
{
    if allowed.len() == 0 {
        return true;
    }
    let e = match extension {
        None => return false,
        Some(e) => e,
    };
    let mut i: usize = 0;
    while i < allowed.len()
        invariant
            i <= allowed@.len(),
            extension == Some(e),
            allowed@.len() > 0,
            forall|j: int| 0 <= j < i ==> (#[trigger] allowed@[j])@ != e@,
        decreases allowed.len() - i,
    {
        if crate::keyed::string_eq(allowed[i].as_str(), e) {
            assert((allowed@[i as int])@ == e@);
            return true;
        }
        i = i + 1;
    }
    false
}

} // verus!
