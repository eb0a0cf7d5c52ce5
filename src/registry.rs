//! The map from model name to handle that every request shares: a model is
//! loaded on first reference to its name and reused afterwards.

use vstd::prelude::*;
use vstd::string::*;

use dashmap::DashMap;

use crate::client::ModelHandle;
use crate::error::Error;

verus! {

#[verifier::external_type_specification]
#[verifier::external_body]
#[verifier::reject_recursive_types(K)]
#[verifier::reject_recursive_types(V)]
#[verifier::reject_recursive_types(S)]
pub struct ExDashMap<K, V, S>(DashMap<K, V, S>);

/// A concurrent map from model name to handle number.
pub type SharedNames = DashMap<String, u64>;

/// The name-to-handle entries a concurrent map holds.
pub uninterp spec fn loaded_names(m: DashMap<String, u64>) -> Map<Seq<char>, u64>;

/// Relies on `DashMap::new`: a map with no entry.
#[verifier::external_body]
fn shared_map_new() -> (r: SharedNames)
    ensures
        loaded_names(r).dom().len() == 0 && loaded_names(r).dom().finite(),
{
    DashMap::new()
}

/// Relies on `DashMap::get`: the value stored under a key, if any.
#[verifier::external_body]
fn shared_map_get(m: &DashMap<String, u64>, name: &str) -> (r: Option<u64>)
    ensures
        r == (if loaded_names(*m).contains_key(name@) {
            Some(loaded_names(*m)[name@])
        } else {
            None::<u64>
        }),
{
    match m.get(name) {
        Some(entry) => Some(*entry.value()),
        None => None,
    }
}

/// Relies on `DashMap::insert`: the key maps to the value afterwards, the
/// other entries stay.
#[verifier::external_body]
fn shared_map_insert(m: &mut DashMap<String, u64>, name: String, handle: u64)
    ensures
        loaded_names(*final(m)) == loaded_names(*old(m)).insert(name@, handle),
{
    m.insert(name, handle);
}

/// Relies on `DashMap::iter`: every key once, in an order the hasher decides.
#[verifier::external_body]
fn shared_map_keys(m: &DashMap<String, u64>) -> (r: Vec<String>)
    ensures
        r@.len() == loaded_names(*m).dom().len(),
        forall|i: int| 0 <= i < r@.len() ==> loaded_names(*m).contains_key(#[trigger] r@[i]@),
{
    let mut names = Vec::new();
    for entry in m.iter() {
        names.push(entry.key().clone());
    }
    names
}

/// What a request must do to have a handle for a model name.
#[derive(Debug, Clone, Copy, PartialEq, Eq, Structural)]
pub enum Resolution {
    /// The name was loaded before: reuse its handle.
    Cached(ModelHandle),
    /// First reference to the name: load it through the engine.
    NeedsLoad,
}

/// The resolution of `name` against the entries `m`.
pub open spec fn resolution(m: Map<Seq<char>, u64>, name: Seq<char>) -> Resolution {
    if m.contains_key(name) {
        Resolution::Cached(ModelHandle(m[name]))
    } else {
        Resolution::NeedsLoad
    }
}

/// The entries after a load of `name` has ended with `loaded`: a success
/// is recorded unless the name already has a handle; a failure changes nothing.
pub open spec fn settled(m: Map<Seq<char>, u64>, name: Seq<char>, loaded: Result<ModelHandle, Error>) -> Map<Seq<char>, u64> {
    match loaded {
        Ok(h) => if m.contains_key(name) { m } else { m.insert(name, h.0) },
        Err(_) => m,
    }
}

/// The lazily filled map from model name to handle, at most one handle per name.
pub struct ModelRegistry {
    pub map: DashMap<String, u64>,
}

impl ModelRegistry {
    /// The entries of the registry.
    pub open spec fn entries(&self) -> Map<Seq<char>, u64> {
        loaded_names(self.map)
    }

    /// A registry with no model.
    pub fn new() -> (r: ModelRegistry)
        ensures
            r.entries() == Map::<Seq<char>, u64>::empty(),
    {
        ModelRegistry { map: shared_map_new() }
    }

    /// The handle recorded for a name, if any.
    pub fn lookup(&self, name: &str) -> (r: Option<ModelHandle>)
        ensures
            r == (match resolution(self.entries(), name@) {
                Resolution::Cached(h) => Some(h),
                Resolution::NeedsLoad => None::<ModelHandle>,
            }),
    {
        match shared_map_get(&self.map, name) {
            Some(h) => Some(ModelHandle(h)),
            None => None,
        }
    }

    /// Whether a name has a handle.
    pub fn contains(&self, name: &str) -> (r: bool)
        ensures
            r == self.entries().contains_key(name@),
    {
        shared_map_get(&self.map, name).is_some()
    }

    /// Whether a request for `name` can reuse a handle or must load.
    pub fn plan(&self, name: &str) -> (r: Resolution)
        ensures
            r == resolution(self.entries(), name@),
    {
        match shared_map_get(&self.map, name) {
            Some(h) => Resolution::Cached(ModelHandle(h)),
            None => Resolution::NeedsLoad,
        }
    }

    /// Takes the result of loading `name`. A success is recorded, unless
    /// the name got a handle meanwhile, which is then kept and returned: a
    /// name never has two handles. A failure is returned as it came.
    pub fn settle(&mut self, name: &str, loaded: Result<ModelHandle, Error>) -> (r: Result<ModelHandle, Error>)
        ensures
            final(self).entries() == settled(old(self).entries(), name@, loaded),
            match loaded {
                Ok(h) => r == Ok::<ModelHandle, Error>(
                    if old(self).entries().contains_key(name@) {
                        ModelHandle(old(self).entries()[name@])
                    } else {
                        h
                    },
                ),
                Err(_) => r is Err,
            },
    {
        match loaded {
            Ok(h) => match shared_map_get(&self.map, name) {
                Some(existing) => Ok(ModelHandle(existing)),
                None => {
                    shared_map_insert(&mut self.map, String::from_str(name), h.0);
                    Ok(h)
                },
            },
            Err(e) => Err(e),
        }
    }

    /// The names that have a handle, in no particular order.
    pub fn names(&self) -> (r: Vec<String>)
        ensures
            r@.len() == self.entries().dom().len(),
            forall|i: int| 0 <= i < r@.len() ==> self.entries().contains_key(#[trigger] r@[i]@),
    {
        shared_map_keys(&self.map)
    }
}

/// Loading a name is idempotent: once a load of `name` has succeeded, every
/// later request for `name` reuses the handle that was returned, and needs
/// no second load.
pub proof fn lemma_load_idempotent(m: Map<Seq<char>, u64>, name: Seq<char>, h: ModelHandle)
    ensures
        resolution(settled(m, name, Ok(h)), name) == Resolution::Cached(
            if m.contains_key(name) { ModelHandle(m[name]) } else { h },
        ),
        settled(settled(m, name, Ok(h)), name, Ok(h)) == settled(m, name, Ok(h)),
{
}

/// A load of one name leaves what every other name resolves to unchanged.
pub proof fn lemma_settle_other_names(m: Map<Seq<char>, u64>, name: Seq<char>, other: Seq<char>, loaded: Result<ModelHandle, Error>)
    requires
        other != name,
    ensures
        resolution(settled(m, name, loaded), other) == resolution(m, other),
{
}

} // verus!
