//! The registry of host objects handed to the plugin through vtable pointers.
//!
//! Every object the host shares with the plugin is recorded under its address together with its
//! type. When the plugin calls back with a pointer, the host checks that the pointer is one it
//! handed out, for an object of the expected type that has not been dropped yet.

use rustc_hash::FxBuildHasher;
use std::any::TypeId;
use std::collections::HashMap;
use vstd::prelude::*;

verus! {

#[verifier::external_type_specification]
#[verifier::external_body]
pub struct ExTypeId(std::any::TypeId);

/// Calls `<TypeId as PartialEq>::eq`. Its documentation states that two `TypeId`s are equal
/// exactly when they identify the same type.
#[verifier::external_body]
fn same_type(a: &TypeId, b: &TypeId) -> (r: bool)
    ensures
        r == (*a == *b),
{
    a == b
}

/// What the registry knows about one object.
#[derive(Clone, Copy)]
pub struct TrackStatus {
    pub type_id: TypeId,
    pub type_label: &'static str,
    pub is_alive: bool,
}

/// Why a pointer handed back by the plugin was refused.
#[derive(Clone, Copy)]
pub enum ProxyError {
    /// The pointer is null.
    Null { expected: &'static str },
    /// The pointer was never handed out.
    Invalid { expected: &'static str },
    /// The pointer was handed out for an object of another type.
    WrongType { expected: &'static str, got: &'static str },
    /// The object has been dropped.
    Expired { expected: &'static str },
}

#[verifier::external_type_specification]
#[verifier::external_body]
pub struct ExFxBuildHasher(rustc_hash::FxBuildHasher);

/// The map with no entries.
pub open spec fn no_entries() -> Map<usize, TrackStatus> {
    Map::empty()
}

/// A `rustc_hash::FxHashMap` from addresses to track statuses.
pub type TrackMap = HashMap<usize, TrackStatus, FxBuildHasher>;

/// The entries of a `rustc_hash::FxHashMap` from addresses to track statuses.
pub uninterp spec fn fx_entries(m: TrackMap) -> Map<usize, TrackStatus>;

/// Calls `rustc_hash::FxHashMap::default()`, which its source defines as a `std` hash map with
/// the Fx hasher: it starts empty.
#[verifier::external_body]
fn fx_map_new() -> (r: TrackMap)
    ensures
        fx_entries(r) == no_entries(),
{
    rustc_hash::FxHashMap::default()
}

/// Calls `HashMap::insert` on an `FxHashMap`: afterwards `k` maps to `v`, and every other key
/// keeps its entry.
#[verifier::external_body]
fn fx_map_insert(m: &mut TrackMap, k: usize, v: TrackStatus)
    ensures
        fx_entries(*final(m)) == fx_entries(*old(m)).insert(k, v),
{
    m.insert(k, v);
}

/// Calls `HashMap::get` on an `FxHashMap`, copying the entry out: the entry stored under `k`,
/// if any.
#[verifier::external_body]
fn fx_map_get(m: &TrackMap, k: usize) -> (r: Option<TrackStatus>)
    ensures
        match r {
            Some(v) => fx_entries(*m).contains_key(k) && fx_entries(*m)[k] == v,
            None => !fx_entries(*m).contains_key(k),
        },
{
    m.get(&k).copied()
}

/// The objects shared with the plugin, by address.
pub struct ObjectRegistry {
    objects: TrackMap,
}

/// What [`ObjectRegistry::check`] decides for a pointer.
pub open spec fn spec_check(
    objects: Map<usize, TrackStatus>,
    addr: usize,
    type_id: TypeId,
    type_label: &'static str,
) -> Result<(), ProxyError> {
    if addr == 0 {
        Err(ProxyError::Null { expected: type_label })
    } else if !objects.contains_key(addr) {
        Err(ProxyError::Invalid { expected: type_label })
    } else if objects[addr].type_id != type_id {
        Err(ProxyError::WrongType { expected: type_label, got: objects[addr].type_label })
    } else if !objects[addr].is_alive {
        Err(ProxyError::Expired { expected: type_label })
    } else {
        Ok(())
    }
}

impl ObjectRegistry {
    /// The recorded objects.
    pub closed spec fn spec_objects(&self) -> Map<usize, TrackStatus> {
        fx_entries(self.objects)
    }

    /// A registry with no objects.
    pub fn new() -> (r: ObjectRegistry)
        ensures
            r.spec_objects() == Map::<usize, TrackStatus>::empty(),
    {
        ObjectRegistry { objects: fx_map_new() }
    }

    /// Start tracking the object at `addr`, of the given type, as alive. An object tracked at the
    /// same address before is forgotten.
    pub fn track(&mut self, addr: usize, type_id: TypeId, type_label: &'static str)
        ensures
            final(self).spec_objects() == old(self).spec_objects().insert(
                addr,
                TrackStatus { type_id, type_label, is_alive: true },
            ),
    {
        fx_map_insert(&mut self.objects, addr, TrackStatus { type_id, type_label, is_alive: true });
    }

    /// Stop tracking the object at `addr`: any later use of the pointer is an error. The object
    /// must have been tracked with the same type.
    pub fn untrack(&mut self, addr: usize, type_id: TypeId)
        requires
            old(self).spec_objects().contains_key(addr),
            old(self).spec_objects()[addr].type_id == type_id,
        ensures
            final(self).spec_objects() == old(self).spec_objects().insert(
                addr,
                TrackStatus { is_alive: false, ..old(self).spec_objects()[addr] },
            ),
    {
        match fx_map_get(&self.objects, addr) {
            Some(status) => fx_map_insert(&mut self.objects, addr, TrackStatus { is_alive: false, ..status }),
            None => {},
        }
    }

    /// Check that the pointer at `addr` is not null, was handed out for an object of the expected
    /// type, and that the object is still alive.
    pub fn check(&self, addr: usize, type_id: TypeId, type_label: &'static str) -> (r: Result<(), ProxyError>)
        ensures
            r == spec_check(self.spec_objects(), addr, type_id, type_label),
    {
        if addr == 0 {
            return Err(ProxyError::Null { expected: type_label });
        }
        let object = match fx_map_get(&self.objects, addr) {
            None => return Err(ProxyError::Invalid { expected: type_label }),
            Some(object) => object,
        };
        if !same_type(&object.type_id, &type_id) {
            return Err(ProxyError::WrongType { expected: type_label, got: object.type_label });
        }
        if !object.is_alive {
            return Err(ProxyError::Expired { expected: type_label });
        }
        Ok(())
    }
}

/// A tracked object passes the check until it is untracked; afterwards it is reported as
/// expired.
pub proof fn lemma_track_then_check(
    objects: Map<usize, TrackStatus>,
    addr: usize,
    type_id: TypeId,
    type_label: &'static str,
)
    requires
        addr != 0,
    ensures
        spec_check(
            objects.insert(addr, TrackStatus { type_id, type_label, is_alive: true }),
            addr,
            type_id,
            type_label,
        ) is Ok,
        spec_check(
            objects.insert(addr, TrackStatus { type_id, type_label, is_alive: true }).insert(
                addr,
                TrackStatus { type_id, type_label, is_alive: false },
            ),
            addr,
            type_id,
            type_label,
        ) == Err::<(), ProxyError>(ProxyError::Expired { expected: type_label }),
{
}

} // verus!
