//! The two indexes of the actor registry: from an actor's id to the name it was
//! registered under, and from a name to the id registered under it last.
//!
//! The registry of the runtime keeps the actor handles on the same keys and asks
//! this index which entries a registration or removal touches.

use vstd::prelude::*;
use crate::message::ActorId;
use dashmap::DashMap;

verus! {

/// `dashmap::DashMap`, the concurrent map the indexes are kept in.
#[verifier::external_type_specification]
#[verifier::external_body]
#[verifier::reject_recursive_types(K)]
#[verifier::reject_recursive_types(V)]
#[verifier::reject_recursive_types(S)]
pub struct ExDashMap<K, V, S>(DashMap<K, V, S>);

/// The entries of an id index: each actor id with the name it was registered under.
pub uninterp spec fn id_entries(m: DashMap<u128, String>) -> Map<u128, Seq<char>>;

/// The entries of a name index: each name with the actor id registered under it.
pub uninterp spec fn name_entries(m: DashMap<String, u128>) -> Map<Seq<char>, u128>;

/// `DashMap::new` for an id index: a map with no entries.
#[verifier::external_body]
fn new_id_index() -> (r: DashMap<u128, String>)
    ensures
        id_entries(r).dom() == Set::<u128>::empty(),
{
    DashMap::new()
}

/// `DashMap::new` for a name index: a map with no entries.
#[verifier::external_body]
fn new_name_index() -> (r: DashMap<String, u128>)
    ensures
        name_entries(r).dom() == Set::<Seq<char>>::empty(),
{
    DashMap::new()
}

/// `DashMap::insert` on an id index: the id now maps to the name, and nothing else changes.
#[verifier::external_body]
fn id_index_insert(m: &mut DashMap<u128, String>, id: u128, name: String)
    ensures
        id_entries(*final(m)) == id_entries(*old(m)).insert(id, name@),
{
    m.insert(id, name);
}

/// `DashMap::insert` on a name index: the name now maps to the id, and nothing else changes.
#[verifier::external_body]
fn name_index_insert(m: &mut DashMap<String, u128>, name: String, id: u128)
    ensures
        name_entries(*final(m)) == name_entries(*old(m)).insert(name@, id),
{
    m.insert(name, id);
}

/// `DashMap::remove` on an id index: the id's entry goes, and its name comes back if
/// there was one.
#[verifier::external_body]
fn id_index_remove(m: &mut DashMap<u128, String>, id: u128) -> (r: Option<String>)
    ensures
        id_entries(*final(m)) == id_entries(*old(m)).remove(id),
        id_entries(*old(m)).contains_key(id) ==> (r matches Some(n) && n@ == id_entries(*old(m))[id]),
        !id_entries(*old(m)).contains_key(id) ==> r is None,
{
    match m.remove(&id) {
        Some((_, name)) => Some(name),
        None => None,
    }
}

/// `DashMap::remove` on a name index: the name's entry goes, and its id comes back if
/// there was one.
#[verifier::external_body]
fn name_index_remove(m: &mut DashMap<String, u128>, name: &str) -> (r: Option<u128>)
    ensures
        name_entries(*final(m)) == name_entries(*old(m)).remove(name@),
        name_entries(*old(m)).contains_key(name@) ==> r == Some(name_entries(*old(m))[name@]),
        !name_entries(*old(m)).contains_key(name@) ==> r is None,
{
    match m.remove(name) {
        Some((_, id)) => Some(id),
        None => None,
    }
}

/// `DashMap::contains_key` on an id index.
#[verifier::external_body]
fn id_index_contains(m: &DashMap<u128, String>, id: u128) -> (r: bool)
    ensures
        r == id_entries(*m).contains_key(id),
{
    m.contains_key(&id)
}

/// `DashMap::get` on a name index, with the id copied out of the entry.
#[verifier::external_body]
fn name_index_get(m: &DashMap<String, u128>, name: &str) -> (r: Option<u128>)
    ensures
        name_entries(*m).contains_key(name@) ==> r == Some(name_entries(*m)[name@]),
        !name_entries(*m).contains_key(name@) ==> r is None,
{
    match m.get(name) {
        Some(entry) => Some(*entry.value()),
        None => None,
    }
}

/// `DashMap::len` on an id index: the number of entries.
#[verifier::external_body]
fn id_index_len(m: &DashMap<u128, String>) -> (r: usize)
    ensures
        r == id_entries(*m).dom().len(),
{
    m.len()
}

/// The id index and the name index of the actor registry.
pub struct ActorIndex {
    by_id: DashMap<u128, String>,
    by_name: DashMap<String, u128>,
}

impl ActorIndex {
    /// From each registered id to the name it was registered under.
    pub closed spec fn ids(&self) -> Map<u128, Seq<char>> {
        id_entries(self.by_id)
    }

    /// From each registered name to the id registered under it last.
    pub closed spec fn names(&self) -> Map<Seq<char>, u128> {
        name_entries(self.by_name)
    }

    /// An empty index.
    pub fn new() -> (r: ActorIndex)
        ensures
            r.ids() == Map::<u128, Seq<char>>::empty(),
            r.names() == Map::<Seq<char>, u128>::empty(),
    {
        let r = ActorIndex { by_id: new_id_index(), by_name: new_name_index() };
        assert(r.ids() =~= Map::<u128, Seq<char>>::empty());
        assert(r.names() =~= Map::<Seq<char>, u128>::empty());
        r
    }

    /// Registers an actor: its id now maps to its name, and its name to its id.
    pub fn register(&mut self, id: ActorId, name: &str)
        ensures
            final(self).ids() == old(self).ids().insert(id.0, name@),
            final(self).names() == old(self).names().insert(name@, id.0),
    {
        id_index_insert(&mut self.by_id, id.0, String::from_str(name));
        name_index_insert(&mut self.by_name, String::from_str(name), id.0);
    }

    /// Unregisters an actor by id: when the id is registered, its entry goes, and so
    /// does the name entry of the name it was registered under; otherwise nothing changes.
    pub fn unregister(&mut self, id: &ActorId)
        ensures
            old(self).ids().contains_key(id.0) ==> final(self).ids() == old(self).ids().remove(id.0)
                && final(self).names() == old(self).names().remove(old(self).ids()[id.0]),
            !old(self).ids().contains_key(id.0) ==> final(self).ids() == old(self).ids() && final(self).names()
                == old(self).names(),
    {
        match id_index_remove(&mut self.by_id, id.0) {
            Some(name) => {
                name_index_remove(&mut self.by_name, name.as_str());
            },
            None => {
                proof {
                    assert(self.ids() =~= old(self).ids());
                }
            },
        }
    }

    /// Unregisters an actor by name: when the name is registered, its entry goes, and so
    /// does the id entry of the id registered under it, which is returned; otherwise
    /// nothing changes.
    pub fn unregister_by_name(&mut self, name: &str) -> (r: Option<ActorId>)
        ensures
            old(self).names().contains_key(name@) ==> r == Some(ActorId(old(self).names()[name@]))
                && final(self).names() == old(self).names().remove(name@) && final(self).ids() == old(
                self,
            ).ids().remove(old(self).names()[name@]),
            !old(self).names().contains_key(name@) ==> r is None && final(self).ids() == old(self).ids()
                && final(self).names() == old(self).names(),
    {
        match name_index_remove(&mut self.by_name, name) {
            Some(id) => {
                id_index_remove(&mut self.by_id, id);
                Some(ActorId(id))
            },
            None => {
                proof {
                    assert(self.names() =~= old(self).names());
                }
                None
            },
        }
    }

    /// The id registered under `name` last, if any.
    pub fn id_of_name(&self, name: &str) -> (r: Option<ActorId>)
        ensures
            self.names().contains_key(name@) ==> r == Some(ActorId(self.names()[name@])),
            !self.names().contains_key(name@) ==> r is None,
    {
        match name_index_get(&self.by_name, name) {
            Some(id) => Some(ActorId(id)),
            None => None,
        }
    }

    /// Whether an actor is registered under `id`.
    pub fn contains_id(&self, id: &ActorId) -> (r: bool)
        ensures
            r == self.ids().contains_key(id.0),
    {
        id_index_contains(&self.by_id, id.0)
    }

    /// Whether an actor is registered under `name`.
    pub fn contains_name(&self, name: &str) -> (r: bool)
        ensures
            r == self.names().contains_key(name@),
    {
        match self.id_of_name(name) {
            Some(_) => true,
            None => false,
        }
    }

    /// The number of registered ids.
    pub fn len(&self) -> (r: usize)
        ensures
            r == self.ids().dom().len(),
    {
        id_index_len(&self.by_id)
    }

    /// Whether no id is registered.
    pub fn is_empty(&self) -> (r: bool)
        ensures
            r == (self.ids().dom().len() == 0),
    {
        self.len() == 0
    }
}

/// Registering an actor under an id and a name that are both free, then unregistering
/// that id, gives back both indexes as they were; and after any registration the id
/// and the name are registered, and unregistering the id leaves neither.
pub proof fn law_register_unregister(
    ids: Map<u128, Seq<char>>,
    names: Map<Seq<char>, u128>,
    id: u128,
    name: Seq<char>,
)
    ensures
        ({
            let ids1 = ids.insert(id, name);
            let names1 = names.insert(name, id);
            &&& ids1.contains_key(id) && names1.contains_key(name) && names1[name] == id
            &&& !ids1.remove(id).contains_key(id)
            &&& !names1.remove(ids1[id]).contains_key(name)
            &&& (!ids.contains_key(id) && !names.contains_key(name)) ==> ids1.remove(id) == ids
                && names1.remove(ids1[id]) == names
        }),
{
    let ids1 = ids.insert(id, name);
    let names1 = names.insert(name, id);
    if !ids.contains_key(id) && !names.contains_key(name) {
        assert(ids1.remove(id) =~= ids);
        assert(names1.remove(name) =~= names);
    }
}

} // verus!
