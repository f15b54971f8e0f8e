//! Checks on the parameters a plugin declares.

use std::collections::BTreeMap;
use vstd::prelude::*;

verus! {

broadcast use {vstd::std_specs::btree::group_btree_axioms, vstd::laws_cmp::group_laws_cmp};

pub const CLAP_PARAM_IS_STEPPED: u32 = 1;
pub const CLAP_PARAM_IS_PERIODIC: u32 = 2;
pub const CLAP_PARAM_IS_HIDDEN: u32 = 4;
pub const CLAP_PARAM_IS_READONLY: u32 = 8;
pub const CLAP_PARAM_IS_BYPASS: u32 = 16;
pub const CLAP_PARAM_IS_AUTOMATABLE: u32 = 32;
pub const CLAP_PARAM_IS_AUTOMATABLE_PER_NOTE_ID: u32 = 64;
pub const CLAP_PARAM_IS_AUTOMATABLE_PER_KEY: u32 = 128;
pub const CLAP_PARAM_IS_AUTOMATABLE_PER_CHANNEL: u32 = 256;
pub const CLAP_PARAM_IS_AUTOMATABLE_PER_PORT: u32 = 512;
pub const CLAP_PARAM_IS_MODULATABLE: u32 = 1024;
pub const CLAP_PARAM_IS_MODULATABLE_PER_NOTE_ID: u32 = 2048;
pub const CLAP_PARAM_IS_MODULATABLE_PER_KEY: u32 = 4096;
pub const CLAP_PARAM_IS_MODULATABLE_PER_CHANNEL: u32 = 8192;
pub const CLAP_PARAM_IS_MODULATABLE_PER_PORT: u32 = 16384;
pub const CLAP_PARAM_REQUIRES_PROCESS: u32 = 32768;
pub const CLAP_PARAM_IS_ENUM: u32 = 65536;

/// The per-note-ID, per-key, per-channel and per-port automation flags.
pub const POLY_AUTOMATABLE: u32 = 960;

/// The per-note-ID, per-key, per-channel and per-port modulation flags.
pub const POLY_MODULATABLE: u32 = 30720;

/// The stable ID that means "no ID".
pub const CLAP_INVALID_ID: u32 = 0xffff_ffff;

/// A string read from a fixed-size character buffer of a struct.
pub enum FixedText {
    /// The buffer holds no null byte.
    Unterminated,
    /// The string is not valid UTF-8.
    InvalidUtf8,
    /// The string up to the first null byte.
    Text(String),
}

/// What the host computes from a parameter's floating-point range.
#[derive(Clone, Copy, PartialEq, Eq, Structural, Debug)]
pub struct RangeFacts {
    /// The minimum value is above the maximum value.
    pub min_above_max: bool,
    /// The default value lies outside the range.
    pub default_outside_range: bool,
    /// The minimum value is not an integer.
    pub min_not_integer: bool,
    /// The maximum value is not an integer.
    pub max_not_integer: bool,
}

/// A parameter's description as the plugin reports it.
pub struct RawParamInfo {
    pub id: u32,
    pub name: FixedText,
    pub module: FixedText,
    pub flags: u32,
    pub range: RangeFacts,
}

/// How a module path is malformed.
#[derive(Clone, Copy, PartialEq, Eq, Structural, Debug)]
pub enum ModuleError {
    /// The buffer holds no null byte.
    Unterminated,
    /// Not valid UTF-8.
    InvalidUtf8,
    LeadingSlash,
    TrailingSlash,
    DoubleSlash,
}

/// Why a parameter was refused.
pub enum ParamError {
    /// The parameter at this index has the stable ID `CLAP_INVALID_ID`.
    InvalidId { index: u32 },
    /// The name could not be read (the buffer holds no null byte, or invalid UTF-8).
    NameUnreadable { id: u32, unterminated: bool },
    /// The module path is malformed.
    Module { id: u32, name: String, error: ModuleError },
    MinAboveMax { id: u32, name: String },
    DefaultOutOfRange { id: u32, name: String },
    SteppedMinNotInteger { id: u32, name: String },
    SteppedMaxNotInteger { id: u32, name: String },
    /// A second bypass parameter, after the one with the first ID.
    MultipleBypass { first: u32, second: u32 },
    BypassNotStepped { id: u32, name: String },
    /// Automatable per note ID, key, channel or port, but not automatable.
    PolyAutomatableOnly { id: u32, name: String },
    /// Modulatable per note ID, key, channel or port, but not modulatable.
    PolyModulatableOnly { id: u32, name: String },
    /// Read-only, but automatable or modulatable.
    ReadonlyAutomatable { id: u32, name: String },
    /// A second parameter with this stable ID.
    DuplicateId { id: u32 },
}

/// A checked parameter: its stable ID, name and flags.
pub struct Param {
    pub id: u32,
    pub name: String,
    pub flags: u32,
}

/// Whether a character sequence contains two slashes in a row.
pub open spec fn has_double_slash(s: Seq<char>) -> bool {
    exists|i: int| 0 <= i < s.len() - 1 && s[i] == '/' && #[trigger] s[i + 1] == '/'
}

/// What is wrong with a module path, if anything.
pub open spec fn module_error(module: FixedText) -> Option<ModuleError> {
    match module {
        FixedText::Unterminated => Some(ModuleError::Unterminated),
        FixedText::InvalidUtf8 => Some(ModuleError::InvalidUtf8),
        FixedText::Text(m) => if m@.len() > 0 && m@[0] == '/' {
            Some(ModuleError::LeadingSlash)
        } else if m@.len() > 0 && m@[m@.len() - 1] == '/' {
            Some(ModuleError::TrailingSlash)
        } else if has_double_slash(m@) {
            Some(ModuleError::DoubleSlash)
        } else {
            None
        },
    }
}

/// A readable module path is accepted exactly when every slash in it stands between two other
/// characters: not first, not last, and not next to another slash. A path that starts with a
/// slash is refused for that first; one that ends with a slash (but does not start with one) for
/// that next.
pub proof fn lemma_module_rules(module: FixedText)
    ensures
        module matches FixedText::Text(t) ==> (module_error(module) is None <==> forall|i: int|
            0 <= i < t@.len() && #[trigger] t@[i] == '/' ==> 0 < i < t@.len() - 1 && t@[i + 1]
                != '/'),
        module matches FixedText::Text(t) ==> (t@.len() > 0 && t@[0] == '/' ==> module_error(module)
            == Some(ModuleError::LeadingSlash)),
        module matches FixedText::Text(t) ==> (t@.len() > 0 && t@[0] != '/' && t@[t@.len() - 1]
            == '/' ==> module_error(module) == Some(ModuleError::TrailingSlash)),
        module is Unterminated ==> module_error(module) == Some(ModuleError::Unterminated),
        module is InvalidUtf8 ==> module_error(module) == Some(ModuleError::InvalidUtf8),
{
    if let FixedText::Text(t) = module {
        let m = t@;
        if module_error(module) is None {
            assert forall|i: int| 0 <= i < m.len() && #[trigger] m[i] == '/' implies 0 < i < m.len()
                - 1 && m[i + 1] != '/' by {
                if i < m.len() - 1 && m[i + 1] == '/' {
                    assert(has_double_slash(m));
                }
            }
        } else {
            if m.len() > 0 && m[0] == '/' {
            } else if m.len() > 0 && m[m.len() - 1] == '/' {
            } else {
                let i = choose|i: int| 0 <= i < m.len() - 1 && m[i] == '/' && #[trigger] m[i + 1] == '/';
                assert(m[i] == '/');
            }
        }
    }
}

/// Check a module path: readable, without a leading or trailing slash, and without two slashes
/// in a row.
pub fn check_module(module: &FixedText) -> (r: Option<ModuleError>)
    ensures
        r == module_error(*module),
{
    match module {
        FixedText::Unterminated => Some(ModuleError::Unterminated),
        FixedText::InvalidUtf8 => Some(ModuleError::InvalidUtf8),
        FixedText::Text(m) => {
            let s = m.as_str();
            let n = s.unicode_len();
            if n > 0 && s.get_char(0) == '/' {
                return Some(ModuleError::LeadingSlash);
            }
            if n > 0 && s.get_char(n - 1) == '/' {
                return Some(ModuleError::TrailingSlash);
            }
            if n < 2 {
                return None;
            }
            let mut i: usize = 0;
            while i < n - 1
                invariant
                    n >= 2,
                    n == m@.len(),
                    s@ == m@,
                    *module == FixedText::Text(*m),
                    m@[0] != '/',
                    m@[m@.len() - 1] != '/',
                    i <= n - 1,
                    forall|j: int| 0 <= j < i ==> !(m@[j] == '/' && #[trigger] m@[j + 1] == '/'),
                decreases n - i,
            {
                if s.get_char(i) == '/' && s.get_char(i + 1) == '/' {
                    assert(m@[i as int] == '/' && m@[i + 1] == '/');
                    return Some(ModuleError::DoubleSlash);
                }
                i = i + 1;
            }
            None
        },
    }
}

/// What the host has learned from the parameters checked so far.
pub struct ParamChecker {
    bypass: Option<u32>,
    /// The parameters accepted so far, by stable ID.
    params: BTreeMap<u32, Param>,
}

/// The fault found in one parameter by itself, before the bypass and duplicate checks that
/// depend on earlier parameters.
pub open spec fn flag_fault(flags: u32) -> Option<u8> {
    if flags & CLAP_PARAM_IS_AUTOMATABLE == 0 && flags & POLY_AUTOMATABLE != 0 {
        Some(0)
    } else if flags & CLAP_PARAM_IS_MODULATABLE == 0 && flags & POLY_MODULATABLE != 0 {
        Some(1)
    } else if flags & CLAP_PARAM_IS_READONLY != 0 && (flags & CLAP_PARAM_IS_AUTOMATABLE != 0 || flags
        & CLAP_PARAM_IS_MODULATABLE != 0) {
        Some(2)
    } else {
        None
    }
}

/// A parameter's flags are refused exactly when they are contradictory: read-only (8) together
/// with automatable (32) or modulatable (1024), or automatable per note ID, key, channel or port
/// (960) without being automatable, or modulatable per note ID, key, channel or port (30720)
/// without being modulatable.
pub proof fn lemma_flag_faults(flags: u32)
    ensures
        flag_fault(flags) is Some <==> ((flags & 8 != 0 && (flags & 32 != 0 || flags & 1024 != 0)) || (
        flags & 32 == 0 && flags & 960 != 0) || (flags & 1024 == 0 && flags & 30720 != 0)),
{
}

/// Whether a parameter passes the checks before the bypass check: a valid ID, a readable name
/// and module path, a sane range, and integer bounds when stepped. A bypass parameter that gets
/// this far is remembered as the bypass parameter, even if a later check fails.
pub open spec fn passes_before_bypass(info: RawParamInfo) -> bool {
    let stepped = info.flags & CLAP_PARAM_IS_STEPPED != 0;
    &&& info.id != CLAP_INVALID_ID
    &&& info.name is Text
    &&& module_error(info.module) is None
    &&& !info.range.min_above_max
    &&& !info.range.default_outside_range
    &&& !(stepped && info.range.min_not_integer)
    &&& !(stepped && info.range.max_not_integer)
}

impl ParamChecker {
    /// The ID of the bypass parameter seen so far, if any.
    pub closed spec fn spec_bypass(&self) -> Option<u32> {
        self.bypass
    }

    /// The stable IDs of the parameters accepted so far.
    pub closed spec fn spec_ids(&self) -> Set<u32> {
        self.params@.dom()
    }

    /// The parameters accepted so far, by stable ID.
    pub closed spec fn spec_params(&self) -> Map<u32, Param> {
        self.params@
    }

    /// A checker that has seen no parameter.
    pub fn new() -> (r: ParamChecker)
        ensures
            r.spec_bypass() is None,
            r.spec_ids() == Set::<u32>::empty(),
            r.spec_params() == Map::<u32, Param>::empty(),
    {
        ParamChecker { bypass: None, params: BTreeMap::new() }
    }

    /// Check the parameter at `index`. In order: its ID, its name, its module path, its range,
    /// stepping, the bypass flag (at most one bypass parameter, and it must be stepped), the
    /// per-note, -key, -channel and -port flags, the read-only flag, and that its ID is new.
    pub fn check(&mut self, index: u32, info: RawParamInfo) -> (r: Result<Param, ParamError>)
        ensures
            info.id == CLAP_INVALID_ID ==> (r matches Err(ParamError::InvalidId { index: i }) && i
                == index),
            info.id != CLAP_INVALID_ID && !(info.name is Text) ==> (r matches Err(
                ParamError::NameUnreadable { id, unterminated },
            ) && id == info.id && unterminated == (info.name is Unterminated)),
            info.id != CLAP_INVALID_ID && info.name is Text && module_error(info.module) is Some
                ==> (r matches Err(ParamError::Module { id, name, error }) && id == info.id && name == info.name->Text_0
                && Some(error) == module_error(info.module)),
            info.id != CLAP_INVALID_ID && info.name is Text && module_error(info.module) is None
                ==> {
                let stepped = info.flags & CLAP_PARAM_IS_STEPPED != 0;
                let bypass = info.flags & CLAP_PARAM_IS_BYPASS != 0;
                if info.range.min_above_max {
                    r matches Err(ParamError::MinAboveMax { id, name }) && id == info.id && name == info.name->Text_0
                } else if info.range.default_outside_range {
                    r matches Err(ParamError::DefaultOutOfRange { id, name }) && id == info.id && name == info.name->Text_0
                } else if stepped && info.range.min_not_integer {
                    r matches Err(ParamError::SteppedMinNotInteger { id, name }) && id == info.id && name == info.name->Text_0
                } else if stepped && info.range.max_not_integer {
                    r matches Err(ParamError::SteppedMaxNotInteger { id, name }) && id == info.id && name == info.name->Text_0
                } else if bypass && old(self).spec_bypass() is Some {
                    r matches Err(ParamError::MultipleBypass { first, second }) && Some(first)
                        == old(self).spec_bypass() && second == info.id
                } else if bypass && !stepped {
                    r matches Err(ParamError::BypassNotStepped { id, name }) && id == info.id && name == info.name->Text_0
                } else if flag_fault(info.flags) == Some(0u8) {
                    r matches Err(ParamError::PolyAutomatableOnly { id, name }) && id == info.id && name == info.name->Text_0
                } else if flag_fault(info.flags) == Some(1u8) {
                    r matches Err(ParamError::PolyModulatableOnly { id, name }) && id == info.id && name == info.name->Text_0
                } else if flag_fault(info.flags) == Some(2u8) {
                    r matches Err(ParamError::ReadonlyAutomatable { id, name }) && id == info.id && name == info.name->Text_0
                } else if old(self).spec_ids().contains(info.id) {
                    r matches Err(ParamError::DuplicateId { id }) && id == info.id
                } else {
                    r matches Ok(p) && p.id == info.id && p.flags == info.flags && (info.name matches FixedText::Text(n) && p.name@ == n@)
                }
            },
            info.flags & 8 != 0 && (info.flags & 32 != 0 || info.flags & 1024 != 0) ==> r is Err,
            info.flags & 32 == 0 && info.flags & 960 != 0 ==> r is Err,
            info.flags & 1024 == 0 && info.flags & 30720 != 0 ==> r is Err,
            final(self).spec_ids() == if r is Ok {
                old(self).spec_ids().insert(info.id)
            } else {
                old(self).spec_ids()
            },
            final(self).spec_params() == if r is Ok {
                old(self).spec_params().insert(
                    info.id,
                    Param { id: info.id, name: info.name->Text_0, flags: info.flags },
                )
            } else {
                old(self).spec_params()
            },
            final(self).spec_bypass() == if passes_before_bypass(info) && info.flags
                & CLAP_PARAM_IS_BYPASS != 0 && old(self).spec_bypass() is None {
                Some(info.id)
            } else {
                old(self).spec_bypass()
            },
    {
        let RawParamInfo { id, name, module, flags, range } = info;
        if id == CLAP_INVALID_ID {
            return Err(ParamError::InvalidId { index });
        }
        let name = match name {
            FixedText::Text(n) => n,
            FixedText::Unterminated => return Err(ParamError::NameUnreadable { id, unterminated: true }),
            FixedText::InvalidUtf8 => return Err(ParamError::NameUnreadable { id, unterminated: false }),
        };
        match check_module(&module) {
            Some(error) => return Err(ParamError::Module { id, name, error }),
            None => {},
        }
        if range.min_above_max {
            return Err(ParamError::MinAboveMax { id, name });
        }
        if range.default_outside_range {
            return Err(ParamError::DefaultOutOfRange { id, name });
        }
        let stepped = flags & CLAP_PARAM_IS_STEPPED != 0;
        if stepped && range.min_not_integer {
            return Err(ParamError::SteppedMinNotInteger { id, name });
        }
        if stepped && range.max_not_integer {
            return Err(ParamError::SteppedMaxNotInteger { id, name });
        }
        if flags & CLAP_PARAM_IS_BYPASS != 0 {
            match self.bypass {
                Some(first) => return Err(ParamError::MultipleBypass { first, second: id }),
                None => self.bypass = Some(id),
            }
            if !stepped {
                return Err(ParamError::BypassNotStepped { id, name });
            }
        }
        if flags & CLAP_PARAM_IS_AUTOMATABLE == 0 && flags & POLY_AUTOMATABLE != 0 {
            return Err(ParamError::PolyAutomatableOnly { id, name });
        }
        if flags & CLAP_PARAM_IS_MODULATABLE == 0 && flags & POLY_MODULATABLE != 0 {
            return Err(ParamError::PolyModulatableOnly { id, name });
        }
        if flags & CLAP_PARAM_IS_READONLY != 0 && (flags & CLAP_PARAM_IS_AUTOMATABLE != 0 || flags
            & CLAP_PARAM_IS_MODULATABLE != 0) {
            return Err(ParamError::ReadonlyAutomatable { id, name });
        }
        if self.params.contains_key(&id) {
            return Err(ParamError::DuplicateId { id });
        }
        self.params.insert(id, Param { id, name: name.clone(), flags });
        Ok(Param { id, name, flags })
    }

    /// The accepted parameters, by stable ID in ascending order.
    pub fn into_info(self) -> (r: BTreeMap<u32, Param>)
        ensures
            r@ == self.spec_params(),
    {
        self.params
    }
}

impl Param {
    /// Whether the parameter is hidden and should be ignored.
    pub fn hidden(&self) -> (r: bool)
        ensures
            r == (self.flags & CLAP_PARAM_IS_HIDDEN != 0),
    {
        self.flags & CLAP_PARAM_IS_HIDDEN != 0
    }

    /// Whether the parameter is read-only and should not be changed.
    pub fn readonly(&self) -> (r: bool)
        ensures
            r == (self.flags & CLAP_PARAM_IS_READONLY != 0),
    {
        self.flags & CLAP_PARAM_IS_READONLY != 0
    }

    /// Whether the parameter is stepped.
    pub fn stepped(&self) -> (r: bool)
        ensures
            r == (self.flags & CLAP_PARAM_IS_STEPPED != 0),
    {
        self.flags & CLAP_PARAM_IS_STEPPED != 0
    }

    /// Whether the parameter is automatable.
    pub fn automatable(&self) -> (r: bool)
        ensures
            r == (self.flags & CLAP_PARAM_IS_AUTOMATABLE != 0),
    {
        self.flags & CLAP_PARAM_IS_AUTOMATABLE != 0
    }

    /// Whether the parameter is automatable per note ID, key, channel, or port.
    pub fn poly_automatable(&self) -> (r: bool)
        ensures
            r == (self.flags & POLY_AUTOMATABLE != 0),
    {
        self.flags & POLY_AUTOMATABLE != 0
    }

    /// Whether the parameter is modulatable.
    pub fn modulatable(&self) -> (r: bool)
        ensures
            r == (self.flags & CLAP_PARAM_IS_MODULATABLE != 0),
    {
        self.flags & CLAP_PARAM_IS_MODULATABLE != 0
    }

    /// Whether the parameter is modulatable per note ID, key, channel, or port.
    pub fn poly_modulatable(&self) -> (r: bool)
        ensures
            r == (self.flags & POLY_MODULATABLE != 0),
    {
        self.flags & POLY_MODULATABLE != 0
    }
}

} // verus!
