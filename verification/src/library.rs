//! Metadata that plugin libraries and preset discovery factories declare, and the checks made on
//! it.

use crate::text::{
    RawText, TextError, mandatory_string, optional_string, read_string, spec_mandatory_string,
    spec_optional_string, spec_read_string,
};
use crate::keyed::string_eq;
use vstd::prelude::*;

verus! {

/// Metadata for a single plugin within a CLAP plugin library.
pub struct PluginMetadata {
    pub id: String,
    pub name: String,
    pub version: Option<String>,
    pub vendor: Option<String>,
    pub description: Option<String>,
    pub manual_url: Option<String>,
    pub support_url: Option<String>,
    pub features: Vec<String>,
}

/// Metadata for a CLAP plugin library, which may contain multiple plugins.
pub struct PluginLibraryMetadata {
    pub version: (u32, u32, u32),
    pub plugins: Vec<PluginMetadata>,
}

/// A plugin descriptor as a plugin factory hands it over.
pub struct RawPluginDescriptor {
    pub id: RawText,
    pub name: RawText,
    pub version: RawText,
    pub vendor: RawText,
    pub description: RawText,
    pub manual_url: RawText,
    pub support_url: RawText,
    /// The null-terminated feature list; `None` when the list pointer is null.
    pub features: Option<Vec<RawText>>,
}

/// The fields of a plugin descriptor.
#[derive(Clone, Copy, PartialEq, Eq, Structural, Debug)]
pub enum DescriptorField {
    Id,
    Name,
    Version,
    Vendor,
    Description,
    ManualUrl,
    SupportUrl,
    Features,
}

/// Why a plugin library's metadata was refused.
#[derive(Clone, Copy, PartialEq, Eq, Structural, Debug)]
pub enum MetadataError {
    /// The factory returned a null descriptor for the plugin at this index.
    NullDescriptor(usize),
    /// A field of the descriptor at this index was refused.
    InvalidField(usize, DescriptorField, TextError),
    /// Two plugins have the same ID.
    DuplicateId,
}

/// An optional string field: absent when null or empty, an error when not valid UTF-8.
pub open spec fn optional_field(raw: RawText) -> Result<Option<Seq<char>>, TextError> {
    match spec_optional_string(raw) {
        Ok(Some(s)) => Ok(Some(s@)),
        Ok(None) => Ok(None),
        Err(e) => Err(e),
    }
}

/// Whether every feature string is present.
pub open spec fn features_present(d: RawPluginDescriptor) -> bool {
    match d.features {
        Some(f) => forall|i: int| 0 <= i < f@.len() ==> !(f@[i] is Null),
        None => true,
    }
}

/// The first error in a plugin descriptor, if any: `id` and `name` must be present (though they
/// may be empty), the other strings valid, and the feature list present.
pub open spec fn descriptor_error(d: RawPluginDescriptor) -> Option<(DescriptorField, TextError)> {
    if spec_read_string(d.id) is Err || spec_read_string(d.id) == Ok::<Option<String>, TextError>(None) {
        Some((DescriptorField::Id, if d.id is Null { TextError::Null } else { TextError::InvalidUtf8 }))
    } else if d.name is Null || d.name is InvalidUtf8 {
        Some((DescriptorField::Name, if d.name is Null { TextError::Null } else { TextError::InvalidUtf8 }))
    } else if d.version is InvalidUtf8 {
        Some((DescriptorField::Version, TextError::InvalidUtf8))
    } else if d.vendor is InvalidUtf8 {
        Some((DescriptorField::Vendor, TextError::InvalidUtf8))
    } else if d.description is InvalidUtf8 {
        Some((DescriptorField::Description, TextError::InvalidUtf8))
    } else if d.manual_url is InvalidUtf8 {
        Some((DescriptorField::ManualUrl, TextError::InvalidUtf8))
    } else if d.support_url is InvalidUtf8 {
        Some((DescriptorField::SupportUrl, TextError::InvalidUtf8))
    } else {
        match d.features {
            None => Some((DescriptorField::Features, TextError::Null)),
            Some(f) => if exists|i: int| 0 <= i < f@.len() && f@[i] is InvalidUtf8 {
                Some((DescriptorField::Features, TextError::InvalidUtf8))
            } else {
                None
            },
        }
    }
}

/// Whether the metadata of a plugin holds what a valid descriptor declared.
pub open spec fn describes(m: PluginMetadata, d: RawPluginDescriptor) -> bool {
    &&& d.id matches RawText::Text(s) && m.id@ == s@
    &&& d.name matches RawText::Text(s) && m.name@ == s@
    &&& optional_field(d.version) == Ok::<Option<Seq<char>>, TextError>(opt_chars(m.version))
    &&& optional_field(d.vendor) == Ok::<Option<Seq<char>>, TextError>(opt_chars(m.vendor))
    &&& optional_field(d.description) == Ok::<Option<Seq<char>>, TextError>(
        opt_chars(m.description),
    )
    &&& optional_field(d.manual_url) == Ok::<Option<Seq<char>>, TextError>(
        opt_chars(m.manual_url),
    )
    &&& optional_field(d.support_url) == Ok::<Option<Seq<char>>, TextError>(
        opt_chars(m.support_url),
    )
    &&& d.features matches Some(f) && m.features@.len() == f@.len() && forall|i: int|
        0 <= i < f@.len() ==> (#[trigger] f@[i] matches RawText::Text(s) && m.features@[i]@ == s@)
}

/// The abstract value of an optional string.
pub open spec fn opt_chars(s: Option<String>) -> Option<Seq<char>> {
    match s {
        Some(v) => Some(v@),
        None => None,
    }
}

/// Whether no two of the IDs are equal.
pub open spec fn ids_distinct(ids: Seq<Seq<char>>) -> bool {
    forall|i: int, j: int| 0 <= i < j < ids.len() ==> ids[i] != ids[j]
}

/// Whether two strings in a list are equal, for some pair.
fn has_duplicate(ids: &Vec<&str>) -> (r: bool)
    ensures
        r == !ids_distinct(ids@.map_values(|s: &str| s@)),
{
    let ghost v = ids@.map_values(|s: &str| s@);
    let mut i: usize = 0;
    while i < ids.len()
        invariant
            i <= ids@.len(),
            v == ids@.map_values(|s: &str| s@),
            forall|a: int, b: int| 0 <= a < b < v.len() && a < i ==> v[a] != v[b],
        decreases ids.len() - i,
    {
        let mut j: usize = i + 1;
        while j < ids.len()
            invariant
                i < ids@.len(),
                i + 1 <= j <= ids@.len(),
                v == ids@.map_values(|s: &str| s@),
                forall|a: int, b: int| 0 <= a < b < v.len() && a < i ==> v[a] != v[b],
                forall|b: int| i < b < j ==> v[i as int] != v[b],
            decreases ids.len() - j,
        {
            if string_eq(ids[i], ids[j]) {
                assert(v[i as int] == v[j as int]);
                return true;
            }
            j = j + 1;
        }
        i = i + 1;
    }
    false
}

/// Read an optional string field of a descriptor.
fn optional_field_exec(raw: RawText, field: DescriptorField) -> (r: Result<Option<String>, (DescriptorField, TextError)>)
    ensures
        match r {
            Ok(v) => optional_field(raw) == Ok::<Option<Seq<char>>, TextError>(opt_chars(v)),
            Err((f, e)) => f == field && optional_field(raw) == Err::<Option<Seq<char>>, TextError>(e)
                && e == TextError::InvalidUtf8,
        },
{
    match optional_string(raw) {
        Ok(v) => Ok(v),
        Err(e) => Err((field, e)),
    }
}

/// The strings of a feature list, or an error when one is not valid UTF-8.
fn collect_features(raw: Vec<RawText>) -> (r: Result<Vec<String>, ()>)
    requires
        forall|k: int| 0 <= k < raw@.len() ==> !(raw@[k] is Null),
    ensures
        match r {
            Ok(v) => v@.len() == raw@.len() && forall|k: int|
                0 <= k < raw@.len() ==> (#[trigger] raw@[k] matches RawText::Text(s) && v@[k]@ == s@),
            Err(_) => exists|k: int| 0 <= k < raw@.len() && raw@[k] is InvalidUtf8,
        },
{
    let ghost rf = raw@;
    let n = raw.len();
    let mut rest = raw;
    let mut collected: Vec<String> = Vec::new();
    while rest.len() > 0
        invariant
            rf == raw@,
            n == rf.len(),
            collected@.len() + rest@.len() == n,
            rest@ == rf.subrange(collected@.len() as int, n as int),
            forall|k: int| 0 <= k < rf.len() ==> !(rf[k] is Null),
            forall|k: int|
                0 <= k < collected@.len() ==> (#[trigger] rf[k] matches RawText::Text(s)
                    && collected@[k]@ == s@),
        decreases rest.len(),
    {
        let k = collected.len();
        assert(rest@[0] == rf[k as int]);
        let item = rest.remove(0);
        assert(rest@ =~= rf.subrange(k + 1, n as int));
        match item {
            RawText::Text(s) => collected.push(s),
            _ => {
                assert(rf[k as int] is InvalidUtf8);
                return Err(());
            },
        }
    }
    Ok(collected)
}

impl PluginMetadata {
    /// Read a plugin descriptor.
    pub fn from_descriptor(d: RawPluginDescriptor) -> (r: Result<PluginMetadata, (DescriptorField, TextError)>)
        requires
            features_present(d),
        ensures
            match r {
                Ok(m) => descriptor_error(d) is None && describes(m, d),
                Err(e) => descriptor_error(d) == Some(e),
            },
    {
        let ghost dd = d;
        let RawPluginDescriptor { id, name, version, vendor, description, manual_url, support_url, features } = d;
        let id = match read_string(id) {
            Ok(Some(s)) => s,
            Ok(None) => return Err((DescriptorField::Id, TextError::Null)),
            Err(e) => return Err((DescriptorField::Id, e)),
        };
        let name = match read_string(name) {
            Ok(Some(s)) => s,
            Ok(None) => return Err((DescriptorField::Name, TextError::Null)),
            Err(e) => return Err((DescriptorField::Name, e)),
        };
        let version = optional_field_exec(version, DescriptorField::Version)?;
        let vendor = optional_field_exec(vendor, DescriptorField::Vendor)?;
        let description = optional_field_exec(description, DescriptorField::Description)?;
        let manual_url = optional_field_exec(manual_url, DescriptorField::ManualUrl)?;
        let support_url = optional_field_exec(support_url, DescriptorField::SupportUrl)?;
        let raw_features = match features {
            None => return Err((DescriptorField::Features, TextError::Null)),
            Some(f) => f,
        };
        let features = match collect_features(raw_features) {
            Ok(f) => f,
            Err(_) => return Err((DescriptorField::Features, TextError::InvalidUtf8)),
        };
        Ok(
            PluginMetadata {
                id,
                name,
                version,
                vendor,
                description,
                manual_url,
                support_url,
                features,
            },
        )
    }
}

impl PluginLibraryMetadata {
    /// Read the descriptors of all plugins in a library, in factory order. Fails at the first
    /// null or invalid descriptor, and when two plugins share an ID.
    pub fn from_descriptors(version: (u32, u32, u32), descriptors: Vec<Option<RawPluginDescriptor>>) -> (r: Result<
        PluginLibraryMetadata,
        MetadataError,
    >)
        requires
            forall|i: int|
                0 <= i < descriptors@.len() ==> (#[trigger] descriptors@[i] matches Some(d)
                    ==> features_present(d)),
        ensures
            match r {
                Ok(m) => {
                    &&& m.version == version
                    &&& m.plugins@.len() == descriptors@.len()
                    &&& forall|i: int|
                        0 <= i < descriptors@.len() ==> (#[trigger] descriptors@[i] matches Some(d)
                            && descriptor_error(d) is None && describes(m.plugins@[i], d))
                    &&& ids_distinct(m.plugins@.map_values(|p: PluginMetadata| p.id@))
                },
                Err(MetadataError::NullDescriptor(i)) => {
                    &&& i < descriptors@.len()
                    &&& descriptors@[i as int] is None
                    &&& forall|k: int|
                        0 <= k < i ==> (#[trigger] descriptors@[k] matches Some(d) && descriptor_error(d) is None)
                },
                Err(MetadataError::InvalidField(i, f, e)) => {
                    &&& i < descriptors@.len()
                    &&& descriptors@[i as int] matches Some(d) && descriptor_error(d) == Some((f, e))
                    &&& forall|k: int|
                        0 <= k < i ==> (#[trigger] descriptors@[k] matches Some(d) && descriptor_error(d) is None)
                },
                Err(MetadataError::DuplicateId) => {
                    &&& forall|k: int|
                        0 <= k < descriptors@.len() ==> (#[trigger] descriptors@[k] matches Some(d)
                            && descriptor_error(d) is None)
                    &&& exists|ids: Seq<Seq<char>>|
                        ids.len() == descriptors@.len() && !ids_distinct(ids) && forall|k: int|
                            0 <= k < ids.len() ==> (#[trigger] descriptors@[k] matches Some(d) && d.id matches RawText::Text(s) && #[trigger] ids[k] == s@)
                },
            },
    {
        let ghost ds = descriptors@;
        let n = descriptors.len();
        let mut rest = descriptors;
        let mut plugins: Vec<PluginMetadata> = Vec::new();
        while rest.len() > 0
            invariant
                ds == descriptors@,
                n == ds.len(),
                plugins@.len() + rest@.len() == n,
                rest@ == ds.subrange(plugins@.len() as int, n as int),
                forall|i: int| 0 <= i < ds.len() ==> (#[trigger] ds[i] matches Some(d) ==> features_present(d)),
                forall|k: int|
                    0 <= k < plugins@.len() ==> (#[trigger] ds[k] matches Some(d) && descriptor_error(d) is None
                        && describes(plugins@[k], d)),
            decreases rest.len(),
        {
            let i = plugins.len();
            assert(rest@[0] == ds[i as int]);
            let d = rest.remove(0);
            assert(rest@ =~= ds.subrange(i + 1, n as int));
            match d {
                None => return Err(MetadataError::NullDescriptor(i)),
                Some(d) => match PluginMetadata::from_descriptor(d) {
                    Ok(m) => plugins.push(m),
                    Err((f, e)) => return Err(MetadataError::InvalidField(i, f, e)),
                },
            }
        }
        let mut ids: Vec<&str> = Vec::new();
        let mut k: usize = 0;
        while k < plugins.len()
            invariant
                k <= plugins@.len(),
                ids@.len() == k,
                forall|j: int| 0 <= j < k ==> ids@[j]@ == plugins@[j].id@,
            decreases plugins.len() - k,
        {
            ids.push(plugins[k].id.as_str());
            k = k + 1;
        }
        let ghost idv = ids@.map_values(|s: &str| s@);
        assert(idv =~= plugins@.map_values(|p: PluginMetadata| p.id@));
        if has_duplicate(&ids) {
            proof {
                assert forall|j: int| 0 <= j < idv.len() implies (#[trigger] ds[j] matches Some(d) && d.id matches RawText::Text(s) && #[trigger] idv[j] == s@) by {
                    assert(idv[j] == plugins@[j].id@);
                }
            }
            return Err(MetadataError::DuplicateId);
        }
        Ok(PluginLibraryMetadata { version, plugins })
    }
}

/// Metadata (descriptor) for a preset discovery provider.
pub struct ProviderMetadata {
    pub id: String,
    pub name: String,
    pub vendor: Option<String>,
    pub version: (u32, u32, u32),
}

/// A provider descriptor as a preset discovery factory hands it over.
pub struct RawProviderDescriptor {
    pub id: RawText,
    pub name: RawText,
    pub vendor: RawText,
    pub clap_version: (u32, u32, u32),
}

/// Why a provider descriptor was refused.
#[derive(Clone, Copy, PartialEq, Eq, Structural, Debug)]
pub enum ProviderError {
    /// The descriptor pointer was null.
    NullDescriptor,
    /// The `id` field was refused.
    Id(TextError),
    /// The `name` field was refused.
    Name(TextError),
    /// The `vendor` field was refused.
    Vendor(TextError),
}

/// Why a preset discovery factory's provider list was refused.
#[derive(Clone, Copy, PartialEq, Eq, Structural, Debug)]
pub enum ProviderListError {
    /// The descriptor at this index was refused.
    Descriptor(usize, ProviderError),
    /// Two providers have the same ID.
    DuplicateId,
}

/// The first error in a provider descriptor, if any.
pub open spec fn provider_error(d: Option<RawProviderDescriptor>) -> Option<ProviderError> {
    match d {
        None => Some(ProviderError::NullDescriptor),
        Some(d) => match spec_mandatory_string(d.id) {
            Err(e) => Some(ProviderError::Id(e)),
            Ok(_) => match spec_mandatory_string(d.name) {
                Err(e) => Some(ProviderError::Name(e)),
                Ok(_) => match spec_optional_string(d.vendor) {
                    Err(e) => Some(ProviderError::Vendor(e)),
                    Ok(_) => None,
                },
            },
        },
    }
}

/// Whether provider metadata holds what a valid descriptor declared.
pub open spec fn describes_provider(m: ProviderMetadata, d: Option<RawProviderDescriptor>) -> bool {
    d matches Some(d) && {
        &&& spec_mandatory_string(d.id) matches Ok(s) && m.id@ == s@
        &&& spec_mandatory_string(d.name) matches Ok(s) && m.name@ == s@
        &&& optional_field(d.vendor) == Ok::<Option<Seq<char>>, TextError>(opt_chars(m.vendor))
        &&& m.version == d.clap_version
    }
}

/// Calls `clap_sys::version::clap_version_is_compatible`, whose source accepts every version
/// with a major version of at least 1.
#[verifier::external_body]
fn clap_version_is_compatible(major: u32, minor: u32, revision: u32) -> (r: bool)
    ensures
        r == (major >= 1),
{
    clap_sys::version::clap_version_is_compatible(
        clap_sys::version::clap_version { major, minor, revision },
    )
}

impl ProviderMetadata {
    /// Read a provider descriptor; `None` stands for a null pointer.
    pub fn from_descriptor(descriptor: Option<RawProviderDescriptor>) -> (r: Result<ProviderMetadata, ProviderError>)
        ensures
            match r {
                Ok(m) => provider_error(descriptor) is None && describes_provider(m, descriptor),
                Err(e) => provider_error(descriptor) == Some(e),
            },
    {
        let d = match descriptor {
            None => return Err(ProviderError::NullDescriptor),
            Some(d) => d,
        };
        let RawProviderDescriptor { id, name, vendor, clap_version } = d;
        let id = match mandatory_string(id) {
            Ok(s) => s,
            Err(e) => return Err(ProviderError::Id(e)),
        };
        let name = match mandatory_string(name) {
            Ok(s) => s,
            Err(e) => return Err(ProviderError::Name(e)),
        };
        let vendor = match optional_string(vendor) {
            Ok(v) => v,
            Err(e) => return Err(ProviderError::Vendor(e)),
        };
        Ok(ProviderMetadata { id, name, vendor, version: clap_version })
    }

    /// Whether the host supports the provider's CLAP version, so that it may be created.
    pub fn is_supported(&self) -> (r: bool)
        ensures
            r == (self.version.0 >= 1),
    {
        clap_version_is_compatible(self.version.0, self.version.1, self.version.2)
    }

    /// Read the descriptors of all providers of a factory, in order. Fails at the first invalid
    /// descriptor, and when two providers share an ID.
    pub fn from_descriptors(descriptors: Vec<Option<RawProviderDescriptor>>) -> (r: Result<
        Vec<ProviderMetadata>,
        ProviderListError,
    >)
        ensures
            match r {
                Ok(v) => {
                    &&& v@.len() == descriptors@.len()
                    &&& forall|i: int|
                        0 <= i < v@.len() ==> provider_error(descriptors@[i]) is None
                            && describes_provider(#[trigger] v@[i], descriptors@[i])
                    &&& ids_distinct(v@.map_values(|p: ProviderMetadata| p.id@))
                },
                Err(ProviderListError::Descriptor(i, e)) => {
                    &&& i < descriptors@.len()
                    &&& provider_error(descriptors@[i as int]) == Some(e)
                    &&& forall|k: int| 0 <= k < i ==> provider_error(descriptors@[k]) is None
                },
                Err(ProviderListError::DuplicateId) => {
                    &&& forall|k: int|
                        0 <= k < descriptors@.len() ==> provider_error(descriptors@[k]) is None
                    &&& exists|ids: Seq<Seq<char>>|
                        ids.len() == descriptors@.len() && !ids_distinct(ids) && forall|k: int|
                            0 <= k < ids.len() ==> (#[trigger] descriptors@[k] matches Some(d)
                                && spec_mandatory_string(d.id) matches Ok(s) && #[trigger] ids[k] == s@)
                },
            },
    {
        let ghost ds = descriptors@;
        let n = descriptors.len();
        let mut rest = descriptors;
        let mut out: Vec<ProviderMetadata> = Vec::new();
        while rest.len() > 0
            invariant
                ds == descriptors@,
                n == ds.len(),
                out@.len() + rest@.len() == n,
                rest@ == ds.subrange(out@.len() as int, n as int),
                forall|k: int| 0 <= k < out@.len() ==> provider_error(#[trigger] ds[k]) is None,
                forall|k: int|
                    0 <= k < out@.len() ==> describes_provider(#[trigger] out@[k], ds[k]),
            decreases rest.len(),
        {
            let i = out.len();
            assert(rest@[0] == ds[i as int]);
            let d = rest.remove(0);
            assert(rest@ =~= ds.subrange(i + 1, n as int));
            match ProviderMetadata::from_descriptor(d) {
                Ok(m) => out.push(m),
                Err(e) => return Err(ProviderListError::Descriptor(i, e)),
            }
        }
        let mut ids: Vec<&str> = Vec::new();
        let mut k: usize = 0;
        while k < out.len()
            invariant
                k <= out@.len(),
                ids@.len() == k,
                forall|j: int| 0 <= j < k ==> ids@[j]@ == out@[j].id@,
            decreases out.len() - k,
        {
            ids.push(out[k].id.as_str());
            k = k + 1;
        }
        let ghost idv = ids@.map_values(|s: &str| s@);
        assert(idv =~= out@.map_values(|p: ProviderMetadata| p.id@));
        if has_duplicate(&ids) {
            proof {
                assert forall|j: int| 0 <= j < idv.len() implies (#[trigger] ds[j] matches Some(d)
                    && spec_mandatory_string(d.id) matches Ok(s) && #[trigger] idv[j] == s@) by {
                    assert(idv[j] == out@[j].id@);
                    assert(describes_provider(out@[j], ds[j]));
                }
            }
            return Err(ProviderListError::DuplicateId);
        }
        Ok(out)
    }
}

} // verus!
