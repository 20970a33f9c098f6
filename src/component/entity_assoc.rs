//! A pairing of an entity with another identifier, readable both ways.
use std::collections::HashMap;
use vstd::prelude::*;

use crate::applicable::CmdResult;
use crate::registry::{lookup_id, Id};

verus! {

broadcast use vstd::std_specs::hash::group_hash_axioms;

#[derive(Debug, Clone, PartialEq, Eq)]
pub struct EntityAssoc {
    pub id_dict: HashMap<Id, Id>,
    pub assoc_id_dict: HashMap<Id, Id>,
}

impl Default for EntityAssoc {
    fn default() -> (r: Self)
        ensures
            r.id_dict@ == Map::<Id, Id>::empty(),
            r.assoc_id_dict@ == Map::<Id, Id>::empty(),
    {
        EntityAssoc { id_dict: HashMap::new(), assoc_id_dict: HashMap::new() }
    }
}

impl EntityAssoc {
    /// Pairs `id` with `assoc_id`, in both directions.
    pub fn assign(&mut self, id: Id, assoc_id: Id) -> (r: CmdResult<()>)
        ensures
            r is Ok,
            final(self).id_dict@ == old(self).id_dict@.insert(id, assoc_id),
            final(self).assoc_id_dict@ == old(self).assoc_id_dict@.insert(assoc_id, id),
    {
        self.id_dict.insert(id, assoc_id);
        self.assoc_id_dict.insert(assoc_id, id);
        Ok(())
    }

    pub fn has_assoc(&self, id: &Id) -> (r: bool)
        ensures
            r == self.id_dict@.contains_key(*id),
    {
        self.id_dict.contains_key(id)
    }

    pub fn is_assoc_id(&self, assoc_id: &Id) -> (r: bool)
        ensures
            r == self.assoc_id_dict@.contains_key(*assoc_id),
    {
        self.assoc_id_dict.contains_key(assoc_id)
    }

    /// The identifier paired with `assoc_id`, or 0.
    pub fn id_lookup(&self, assoc_id: &Id) -> (r: Id)
        ensures
            r == lookup_id(self.assoc_id_dict@, *assoc_id),
    {
        match self.assoc_id_dict.get(assoc_id) {
            Some(id) => *id,
            None => 0,
        }
    }

    /// The identifier paired with `id`, or 0.
    pub fn assoc_id_lookup(&self, id: &Id) -> (r: Id)
        ensures
            r == lookup_id(self.id_dict@, *id),
    {
        match self.id_dict.get(id) {
            Some(assoc_id) => *assoc_id,
            None => 0,
        }
    }
}

} // verus!
