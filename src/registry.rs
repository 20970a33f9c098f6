//! The two-way mapping between caller-chosen external identifiers and the
//! dense internal identifiers that the store assigns.
use std::collections::HashMap;
use vstd::prelude::*;

use crate::applicable::{CmdErr, CmdResult};
use crate::state::State;

verus! {

broadcast use vstd::std_specs::hash::group_hash_axioms;

/// An internal identifier, assigned by the registry; 0 means "no such entity".
pub type Id = usize;

/// An external identifier, chosen by the caller.
pub type PubId = usize;

/// Internal identifiers run from 1 upward and are never handed out twice.
#[derive(Debug, Clone, PartialEq, Eq)]
pub struct Registry {
    pub next_id: Id,
    pub id_dict: HashMap<Id, PubId>,
    pub pub_dict: HashMap<PubId, Id>,
}

/// The internal identifier registered for `pub_id` in `pub_dict`, or 0.
pub open spec fn lookup_id(pub_dict: Map<PubId, Id>, pub_id: PubId) -> Id {
    if pub_dict.contains_key(pub_id) {
        pub_dict[pub_id]
    } else {
        0
    }
}

/// `after` is `before` with `pub_id` registered under the next internal
/// identifier.
pub open spec fn registers(before: Registry, after: Registry, pub_id: PubId) -> bool {
    &&& after.next_id == before.next_id + 1
    &&& after.id_dict@ == before.id_dict@.insert(before.next_id, pub_id)
    &&& after.pub_dict@ == before.pub_dict@.insert(pub_id, before.next_id)
}

/// `after` is `before` with the internal identifier `id` and its external
/// identifier forgotten.
pub open spec fn deregisters(before: Registry, after: Registry, id: Id) -> bool {
    &&& after.next_id == before.next_id
    &&& after.id_dict@ == before.id_dict@.remove(id)
    &&& after.pub_dict@ == before.pub_dict@.remove(before.id_dict@[id])
}

/// Registering an unregistered external identifier gives it a fresh internal
/// identifier above 0 that maps back to it; deregistering that identifier
/// makes the external one unknown again.
pub proof fn lemma_register_round_trip(before: Registry, registered: Registry, deregistered: Registry, x: PubId)
    requires
        before.wf(),
        !before.pub_dict@.contains_key(x),
        registers(before, registered, x),
        deregisters(registered, deregistered, lookup_id(registered.pub_dict@, x)),
    ensures
        lookup_id(registered.pub_dict@, x) > 0,
        !before.id_dict@.contains_key(lookup_id(registered.pub_dict@, x)),
        registered.id_dict@.contains_key(lookup_id(registered.pub_dict@, x)),
        registered.id_dict@[lookup_id(registered.pub_dict@, x)] == x,
        lookup_id(deregistered.pub_dict@, x) == 0,
{
}

/// Whether `pub_id` is registered in `s`.
pub open spec fn is_registered(s: State, pub_id: PubId) -> bool {
    s.registry.pub_dict@.contains_key(pub_id)
}

/// The internal identifier of `pub_id` in `s`, or 0.
pub open spec fn entity_id(s: State, pub_id: PubId) -> Id {
    lookup_id(s.registry.pub_dict@, pub_id)
}

/// `r` is what registering `pub_id` in `before` gives: refused when it is
/// registered already, or when the identifiers have run out.
pub open spec fn registered(before: State, pub_id: PubId, r: CmdResult<State>) -> bool {
    match r {
        Ok(s) => {
            &&& !is_registered(before, pub_id)
            &&& before.registry.next_id < usize::MAX
            &&& s.wf()
            &&& s == (State { registry: s.registry, ..before })
            &&& registers(before.registry, s.registry, pub_id)
        },
        Err(e) => (is_registered(before, pub_id) && e == CmdErr::AlreadyExists) || (
        !is_registered(before, pub_id) && before.registry.next_id == usize::MAX && e
            == CmdErr::OutOfRange),
    }
}

/// `r` is what forgetting the internal identifier `id` in `before` gives.
pub open spec fn deregistered(before: State, id: Id, r: CmdResult<State>) -> bool {
    match r {
        Ok(s) => {
            &&& before.registry.id_dict@.contains_key(id)
            &&& s.wf()
            &&& s == (State { registry: s.registry, ..before })
            &&& deregisters(before.registry, s.registry, id)
        },
        Err(e) => !before.registry.id_dict@.contains_key(id) && e == CmdErr::NotFound,
    }
}

impl Default for Registry {
    fn default() -> (r: Self)
        ensures
            r.wf(),
            r.next_id == 1,
            r.id_dict@ == Map::<Id, PubId>::empty(),
            r.pub_dict@ == Map::<PubId, Id>::empty(),
    {
        Registry { next_id: 1, id_dict: HashMap::new(), pub_dict: HashMap::new() }
    }
}

impl Registry {
    /// Both directions agree, and every internal identifier lies in
    /// `1 .. next_id`.
    pub open spec fn wf(&self) -> bool {
        &&& self.next_id >= 1
        &&& forall|id: Id| #[trigger]
            self.id_dict@.contains_key(id) ==> 0 < id < self.next_id && self.pub_dict@.contains_key(
                self.id_dict@[id],
            ) && self.pub_dict@[self.id_dict@[id]] == id
        &&& forall|p: PubId| #[trigger]
            self.pub_dict@.contains_key(p) ==> self.id_dict@.contains_key(self.pub_dict@[p])
                && self.id_dict@[self.pub_dict@[p]] == p
    }

    pub fn has_id(&self, id: &Id) -> (r: bool)
        ensures
            r == self.id_dict@.contains_key(*id),
    {
        self.id_dict.contains_key(id)
    }

    pub fn has_pub_id(&self, pub_id: &PubId) -> (r: bool)
        ensures
            r == self.pub_dict@.contains_key(*pub_id),
    {
        self.pub_dict.contains_key(pub_id)
    }

    /// The internal identifier of `pub_id`, or 0 when it is not registered.
    pub fn id(&self, pub_id: &PubId) -> (r: Id)
        ensures
            r == lookup_id(self.pub_dict@, *pub_id),
    {
        match self.pub_dict.get(pub_id) {
            Some(id) => *id,
            None => 0,
        }
    }

    /// The external identifier of `id`, if it is registered.
    pub fn pub_id(&self, id: &Id) -> (r: Option<PubId>)
        ensures
            r is Some == self.id_dict@.contains_key(*id),
            r is Some ==> r.unwrap() == self.id_dict@[*id],
    {
        match self.id_dict.get(id) {
            Some(p) => Some(*p),
            None => None,
        }
    }
}

/// Registers `pub_id` under the next unused internal identifier.
pub fn register(state: State, pub_id: PubId) -> (r: CmdResult<State>)
    requires
        state.wf(),
    ensures
        registered(state, pub_id, r),
{
    let mut state = state;
    if state.registry.has_pub_id(&pub_id) {
        return Err(CmdErr::AlreadyExists);
    }
    let id = state.registry.next_id;
    if id == usize::MAX {
        return Err(CmdErr::OutOfRange);
    }
    state.registry.id_dict.insert(id, pub_id);
    state.registry.pub_dict.insert(pub_id, id);
    state.registry.next_id = id + 1;
    Ok(state)
}

/// Forgets the internal identifier `id` and its external identifier. Nothing
/// else that refers to `id` is touched: attributes, relationships and turns
/// are for the caller to clear.
pub fn deregister(state: State, id: Id) -> (r: CmdResult<State>)
    requires
        state.wf(),
    ensures
        deregistered(state, id, r),
{
    let mut state = state;
    let pub_id = match state.registry.pub_id(&id) {
        Some(p) => p,
        None => return Err(CmdErr::NotFound),
    };
    state.registry.id_dict.remove(&id);
    state.registry.pub_dict.remove(&pub_id);
    Ok(state)
}

/// The internal identifier of the entity registered as `pub_id`, or 0.
pub fn id(state: &State, pub_id: PubId) -> (r: Id)
    ensures
        r == entity_id(*state, pub_id),
{
    state.registry.id(&pub_id)
}

/// The external identifier of the internal identifier `id`, if registered.
pub fn pub_id(state: &State, id: Id) -> (r: Option<PubId>)
    ensures
        r is Some == state.registry.id_dict@.contains_key(id),
        r is Some ==> r.unwrap() == state.registry.id_dict@[id],
{
    state.registry.pub_id(&id)
}

} // verus!
