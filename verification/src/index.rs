//! Where CLAP plugins are looked for, and the index of the plugins found.

use crate::library::PluginLibraryMetadata;
use vstd::prelude::*;

verus! {

/// The metadata for all CLAP plugin libraries found on this system, by library path.
pub struct Index(pub Vec<(String, PluginLibraryMetadata)>);

/// A request to scan one plugin library, possibly in a separate process.
pub struct SandboxedScanLibrary {
    pub library_path: String,
    pub scan_presets: bool,
}

/// The kind of system the CLAP directories are looked up for.
#[derive(Clone, Copy, PartialEq, Eq, Structural, Debug)]
pub enum Platform {
    /// Linux and the BSDs.
    Unix,
    MacOs,
    Windows,
}

/// The separator of the `CLAP_PATH` environment variable: `;` on Windows, `:` elsewhere.
pub open spec fn spec_path_separator(platform: Platform) -> char {
    if platform == Platform::Windows {
        ';'
    } else {
        ':'
    }
}

/// The separator of the `CLAP_PATH` environment variable on a platform.
pub fn path_separator(platform: Platform) -> (r: char)
    ensures
        r == spec_path_separator(platform),
        r == ';' <==> platform == Platform::Windows,
        r == ':' <==> platform != Platform::Windows,
{
    if platform == Platform::Windows {
        ';'
    } else {
        ':'
    }
}

/// The text split at every occurrence of `sep`, as `str::split` does: `n` separators give
/// `n + 1` parts, some of which may be empty.
pub open spec fn split_on(s: Seq<char>, sep: char) -> Seq<Seq<char>>
    decreases s.len(),
{
    if s.len() == 0 {
        seq![Seq::empty()]
    } else {
        let parts = split_on(s.drop_last(), sep);
        if s.last() == sep {
            parts.push(Seq::empty())
        } else {
            parts.update(parts.len() - 1, parts.last().push(s.last()))
        }
    }
}

/// The directories listed in `CLAP_PATH`, split at the platform's separator; none when it is
/// not set.
pub fn clap_env_path_directories(clap_path: Option<&str>, separator: char) -> (r: Vec<String>)
    ensures
        match clap_path {
            None => r@.len() == 0,
            Some(p) => r@.map_values(|d: String| d@) == split_on(p@, separator),
        },
{
    let p = match clap_path {
        None => return Vec::new(),
        Some(p) => p,
    };
    let n = p.unicode_len();
    let mut parts: Vec<String> = Vec::new();
    let mut start: usize = 0;
    let mut i: usize = 0;
    assert(p@.subrange(0, 0) =~= Seq::<char>::empty());
    while i < n
        invariant
            n == p@.len(),
            start <= i <= n,
            split_on(p@.subrange(0, i as int), separator) == parts@.map_values(
                |d: String| d@,
            ).push(p@.subrange(start as int, i as int)),
        decreases n - i,
    {
        let ghost before = parts@.map_values(|d: String| d@);
        proof {
            let t = p@.subrange(0, i + 1);
            assert(t.drop_last() =~= p@.subrange(0, i as int));
            assert(t.last() == p@[i as int]);
        }
        if p.get_char(i) == separator {
            let part = p.substring_char(start, i);
            parts.push(part.to_string());
            proof {
                assert(parts@.map_values(|d: String| d@) =~= before.push(
                    p@.subrange(start as int, i as int),
                ));
                assert(p@.subrange(i + 1, i + 1) =~= Seq::<char>::empty());
            }
            start = i + 1;
        } else {
            proof {
                assert(p@.subrange(start as int, i + 1) =~= p@.subrange(start as int, i as int).push(
                    p@[i as int],
                ));
                assert(before.push(p@.subrange(start as int, i as int)).update(
                    before.len() as int,
                    p@.subrange(start as int, i + 1),
                ) =~= before.push(p@.subrange(start as int, i + 1)));
            }
        }
        i = i + 1;
    }
    let last = p.substring_char(start, n);
    let ghost before = parts@.map_values(|d: String| d@);
    parts.push(last.to_string());
    proof {
        assert(p@.subrange(0, n as int) =~= p@);
        assert(parts@.map_values(|d: String| d@) =~= before.push(p@.subrange(start as int, n as int)));
    }
    parts
}

/// `CLAP_PATH` is split at colons on Linux, the BSDs and macOS, and at semicolons on Windows,
/// so the directories it lists come first, in order, on every platform.
pub proof fn lemma_clap_path_separators(platform: Platform, clap_path: Option<Seq<char>>)
    ensures
        spec_path_separator(Platform::Unix) == ':',
        spec_path_separator(Platform::MacOs) == ':',
        spec_path_separator(Platform::Windows) == ';',
        platform != Platform::Windows ==> env_directories(platform, clap_path) == match clap_path {
            Some(p) => split_on(p, ':'),
            None => Seq::<Seq<char>>::empty(),
        },
        platform == Platform::Windows ==> env_directories(platform, clap_path) == match clap_path {
            Some(p) => split_on(p, ';'),
            None => Seq::<Seq<char>>::empty(),
        },
{
}

/// The path `child` joined onto `base`, as `std::path::Path::join` builds it on the platform the
/// library is built for.
pub uninterp spec fn joined_path(base: Seq<char>, child: Seq<char>) -> Seq<char>;

/// Calls `std::path::Path::join`: `child` is appended to `base` with the platform's separator
/// between them where one is needed, or replaces it when `child` is absolute (keeping a Windows
/// drive prefix). How the separator and the prefixes are handled differs between platforms, so
/// the result is given a name rather than restated.
#[verifier::external_body]
fn join_path(base: &str, child: &str) -> (r: String)
    ensures
        r@ == joined_path(base@, child@),
{
    std::path::Path::new(base).join(child).to_string_lossy().into_owned()
}

/// The environment variables the CLAP directories are built from.
pub struct DirectoryVars {
    pub home: Option<String>,
    pub clap_path: Option<String>,
    /// `COMMONPROGRAMFILES`, read on Windows.
    pub common_program_files: Option<String>,
    /// `LOCALAPPDATA`, read on Windows.
    pub local_app_data: Option<String>,
}

/// Why the CLAP plugin directories could not be determined.
#[derive(Clone, Copy, PartialEq, Eq, Structural, Debug)]
pub enum DirectoryError {
    /// `$HOME` is not set.
    HomeNotSet,
    /// `$COMMONPROGRAMFILES` is not set.
    CommonProgramFilesNotSet,
    /// `$LOCALAPPDATA` is not set.
    LocalAppDataNotSet,
}

/// The text of an optional string.
pub open spec fn opt_text(s: Option<String>) -> Option<Seq<char>> {
    match s {
        Some(t) => Some(t@),
        None => None,
    }
}

/// The directories in `CLAP_PATH`, split at the platform's separator.
pub open spec fn env_directories(platform: Platform, clap_path: Option<Seq<char>>) -> Seq<Seq<char>> {
    match clap_path {
        Some(p) => split_on(p, spec_path_separator(platform)),
        None => Seq::empty(),
    }
}

/// The CLAP directories of a platform: those in `CLAP_PATH`, then the platform's own.
/// - Linux and the BSDs: `~/.clap`, then `/usr/lib/clap`.
/// - macOS: `~/Library/Audio/Plug-Ins/CLAP`, then `/Library/Audio/Plug-Ins/CLAP`.
/// - Windows: `CLAP` under `COMMONPROGRAMFILES`, then `Programs/Common/CLAP` under
///   `LOCALAPPDATA`.
/// A variable the platform needs that is not set is an error.
pub open spec fn spec_clap_directories(
    platform: Platform,
    home: Option<Seq<char>>,
    clap_path: Option<Seq<char>>,
    common_program_files: Option<Seq<char>>,
    local_app_data: Option<Seq<char>>,
) -> Result<Seq<Seq<char>>, DirectoryError> {
    let env = env_directories(platform, clap_path);
    match platform {
        Platform::Unix => match home {
            None => Err(DirectoryError::HomeNotSet),
            Some(h) => Ok(env + seq![joined_path(h, ".clap"@), "/usr/lib/clap"@]),
        },
        Platform::MacOs => match home {
            None => Err(DirectoryError::HomeNotSet),
            Some(h) => Ok(
                env + seq![
                    joined_path(h, "Library/Audio/Plug-Ins/CLAP"@),
                    "/Library/Audio/Plug-Ins/CLAP"@,
                ],
            ),
        },
        Platform::Windows => match common_program_files {
            None => Err(DirectoryError::CommonProgramFilesNotSet),
            Some(c) => match local_app_data {
                None => Err(DirectoryError::LocalAppDataNotSet),
                Some(l) => Ok(
                    env + seq![joined_path(c, "CLAP"@), joined_path(l, "Programs/Common/CLAP"@)],
                ),
            },
        },
    }
}

/// The directories searched for CLAP plugins on a platform, from its environment variables.
pub fn clap_directories(platform: Platform, vars: &DirectoryVars) -> (r: Result<Vec<String>, DirectoryError>)
    ensures
        match spec_clap_directories(
            platform,
            opt_text(vars.home),
            opt_text(vars.clap_path),
            opt_text(vars.common_program_files),
            opt_text(vars.local_app_data),
        ) {
            Ok(dirs) => r matches Ok(v) && v@.map_values(|d: String| d@) == dirs,
            Err(e) => r == Err::<Vec<String>, DirectoryError>(e),
        },
{
    let (first, second): (String, String) = match platform {
        Platform::Unix => match &vars.home {
            None => return Err(DirectoryError::HomeNotSet),
            Some(h) => (join_path(h.as_str(), ".clap"), String::from_str("/usr/lib/clap")),
        },
        Platform::MacOs => match &vars.home {
            None => return Err(DirectoryError::HomeNotSet),
            Some(h) => (
                join_path(h.as_str(), "Library/Audio/Plug-Ins/CLAP"),
                String::from_str("/Library/Audio/Plug-Ins/CLAP"),
            ),
        },
        Platform::Windows => match &vars.common_program_files {
            None => return Err(DirectoryError::CommonProgramFilesNotSet),
            Some(c) => match &vars.local_app_data {
                None => return Err(DirectoryError::LocalAppDataNotSet),
                Some(l) => (join_path(c.as_str(), "CLAP"), join_path(l.as_str(), "Programs/Common/CLAP")),
            },
        },
    };
    let clap_path: Option<&str> = match &vars.clap_path {
        Some(p) => Some(p.as_str()),
        None => None,
    };
    let mut directories = clap_env_path_directories(clap_path, path_separator(platform));
    let ghost before = directories@;
    directories.push(first);
    directories.push(second);
    proof {
        reveal_strlit("/usr/lib/clap");
        reveal_strlit("/Library/Audio/Plug-Ins/CLAP");
        let env = env_directories(platform, opt_text(vars.clap_path));
        assert(before.map_values(|d: String| d@) =~= env);
        assert(directories@.map_values(|d: String| d@) =~= env + seq![first@, second@]);
    }
    Ok(directories)
}

/// The extension of a path, as `std::path::Path::extension` finds it.
pub uninterp spec fn extension_of(path: Seq<char>) -> Option<Seq<char>>;

/// Calls `std::path::Path::extension`: the part of the file name after its last dot, if the file
/// name has one that does not start it. This is believed, not proved, and is given a name rather
/// than restated.
#[verifier::external_body]
fn path_extension(path: &str) -> (r: Option<String>)
    ensures
        match r {
            Some(e) => extension_of(path@) == Some(e@),
            None => extension_of(path@) is None,
        },
{
    match std::path::Path::new(path).extension() {
        Some(e) => Some(e.to_string_lossy().into_owned()),
        None => None,
    }
}

/// Whether a path names a `.clap` plugin file or bundle, judged by its extension.
pub fn has_clap_extension(path: &str) -> (r: bool)
    ensures
        r == (extension_of(path@) == Some("clap"@)),
{
    proof {
        reveal_strlit("clap");
    }
    match path_extension(path) {
        Some(e) => crate::keyed::string_eq(e.as_str(), "clap"),
        None => false,
    }
}

} // verus!
