//! The identity registry: which connections have joined, and under which
//! name.

use crate::protocol::{names_view, ClientId};
use std::collections::HashMap;
use vstd::prelude::*;
use vstd::std_specs::hash::spec_keys_iter;
use vstd::std_specs::iter::IteratorSpec;

verus! {

/// What a registry holds, as a map from identifier to name.
pub type Registry = Map<ClientId, Seq<char>>;

/// Why a registry operation was refused.
#[derive(Debug, Clone, Copy, PartialEq, Eq)]
pub enum RegistryError {
    /// The identifier is already registered; its name was left alone.
    AlreadyJoined,
    /// The identifier is not registered.
    NotPresent,
}

/// The registry of joined connections. An identifier is a key of `names`
/// exactly while its connection has joined and has not been removed.
#[derive(Debug, Clone)]
pub struct Users {
    pub names: HashMap<ClientId, String>,
}

impl Default for Users {
    fn default() -> (users: Users)
        ensures
            users@ == Registry::empty(),
    {
        Users::new()
    }
}

impl View for Users {
    type V = Registry;

    open spec fn view(&self) -> Registry {
        names_view(self.names)
    }
}

impl Users {
    /// An empty registry.
    pub fn new() -> (users: Users)
        ensures
            users@ == Registry::empty(),
    {
        let users = Users { names: HashMap::new() };
        assert(users@ =~= Registry::empty());
        users
    }

    /// Whether `client_id` has joined and not yet been removed.
    pub fn contains(&self, client_id: ClientId) -> (present: bool)
        ensures
            present == self@.contains_key(client_id),
    {
        self.names.contains_key(&client_id)
    }

    /// The name under which `client_id` joined, if it has.
    pub fn get(&self, client_id: ClientId) -> (name: Option<&String>)
        ensures
            match name {
                Some(name) => self@.contains_key(client_id) && self@[client_id] == name@,
                None => !self@.contains_key(client_id),
            },
    {
        self.names.get(&client_id)
    }

    /// How many connections are registered.
    pub fn len(&self) -> (n: usize)
        ensures
            n == self@.len(),
    {
        proof {
            lemma_names_view_dom(self.names);
        }
        self.names.len()
    }

    /// Whether no connection is registered.
    pub fn is_empty(&self) -> (empty: bool)
        ensures
            empty == (self@ == Registry::empty()),
    {
        proof {
            lemma_names_view_dom(self.names);
            if self.names@.is_empty() {
                assert(self@ =~= Registry::empty());
            }
        }
        self.names.is_empty()
    }

    /// Registers `client_id` under `name`. An identifier that is already
    /// registered keeps its name, and the call reports `AlreadyJoined`.
    pub fn insert(&mut self, client_id: ClientId, name: String) -> (result: Result<
        (),
        RegistryError,
    >)
        ensures
            match result {
                Ok(_) => !old(self)@.contains_key(client_id)
                    && final(self)@ == old(self)@.insert(client_id, name@),
                Err(e) => e == RegistryError::AlreadyJoined && old(self)@.contains_key(client_id)
                    && final(self)@ == old(self)@,
            },
    {
        if self.names.contains_key(&client_id) {
            return Err(RegistryError::AlreadyJoined);
        }
        let ghost before = self.names;
        self.names.insert(client_id, name);
        proof {
            lemma_names_view_insert(before, self.names, client_id, name);
        }
        Ok(())
    }

    /// Removes `client_id` and returns the name it had, or reports
    /// `NotPresent` and changes nothing.
    pub fn remove(&mut self, client_id: ClientId) -> (result: Result<String, RegistryError>)
        ensures
            match result {
                Ok(name) => old(self)@.contains_key(client_id) && name@ == old(self)@[client_id]
                    && final(self)@ == old(self)@.remove(client_id),
                Err(e) => e == RegistryError::NotPresent && !old(self)@.contains_key(client_id)
                    && final(self)@ == old(self)@,
            },
    {
        let ghost before = self.names;
        match self.names.remove(&client_id) {
            Some(name) => {
                proof {
                    lemma_names_view_remove(before, self.names, client_id);
                }
                Ok(name)
            },
            None => {
                assert(self.names@ =~= before@);
                Err(RegistryError::NotPresent)
            },
        }
    }

    /// Forgets every connection.
    pub fn clear(&mut self)
        ensures
            final(self)@ == Registry::empty(),
    {
        self.names.clear();
        assert(self@ =~= Registry::empty());
    }

    /// A copy of the whole mapping, independent of later changes.
    pub fn snapshot(&self) -> (copy: HashMap<ClientId, String>)
        ensures
            names_view(copy) == self@,
    {
        self.names.clone()
    }

    /// The registered identifiers, each once, in no particular order.
    pub fn all_ids(&self) -> (ids: Vec<ClientId>)
        ensures
            ids@.to_set() == self@.dom(),
            ids@.no_duplicates(),
    {
        let mut ids: Vec<ClientId> = Vec::new();
        let ghost keys = spec_keys_iter(&self.names).remaining();
        proof {
            lemma_names_view_dom(self.names);
            lemma_unref_no_duplicates(keys);
        }
        for key in it: self.names.keys()
            invariant
                it.seq() == keys,
                ids@ == keys.unref().take(it.index()),
        {
            assert(keys.unref().take(it.index() + 1) =~= keys.unref().take(it.index()).push(*key));
            ids.push(*key);
        }
        assert(ids@ =~= keys.unref());
        ids
    }
}

/// The view of a name map has the keys of the map itself.
proof fn lemma_names_view_dom(names: HashMap<ClientId, String>)
    ensures
        names_view(names).dom() == names@.dom(),
        names_view(names).len() == names@.len(),
        forall|id: ClientId| #[trigger]
            names@.contains_key(id) ==> names_view(names)[id] == names@[id]@,
{
    assert(names_view(names).dom() =~= names@.dom());
}

/// Distinct references to identifiers refer to distinct identifiers.
proof fn lemma_unref_no_duplicates(keys: Seq<&ClientId>)
    requires
        keys.no_duplicates(),
    ensures
        keys.unref().no_duplicates(),
{
    assert forall|i: int, j: int|
        0 <= i < keys.unref().len() && 0 <= j < keys.unref().len() && i != j implies keys.unref()[i]
        != keys.unref()[j] by {
        assert(keys[i] != keys[j]);
    }
}

proof fn lemma_names_view_insert(
    before: HashMap<ClientId, String>,
    after: HashMap<ClientId, String>,
    client_id: ClientId,
    name: String,
)
    requires
        after@ == before@.insert(client_id, name),
    ensures
        names_view(after) == names_view(before).insert(client_id, name@),
{
    assert(names_view(after) =~= names_view(before).insert(client_id, name@));
}

proof fn lemma_names_view_remove(
    before: HashMap<ClientId, String>,
    after: HashMap<ClientId, String>,
    client_id: ClientId,
)
    requires
        after@ == before@.remove(client_id),
    ensures
        names_view(after) == names_view(before).remove(client_id),
{
    assert(names_view(after) =~= names_view(before).remove(client_id));
}

} // verus!
