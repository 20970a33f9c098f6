//! The entities that effects refer to, numbered from 0.
use std::collections::HashMap;
use vstd::prelude::*;

use crate::applicable::CmdErr;
use crate::subsys::effect::{ActionResult, State};

verus! {

broadcast use vstd::std_specs::hash::group_hash_axioms;

pub type Id = usize;

/// What an effect entity stands for.
#[derive(Debug, Clone, Copy, PartialEq, Eq, Structural)]
pub enum Ref {
    Nothing,
}

pub type Items = HashMap<Id, Ref>;

#[derive(Debug, Clone, PartialEq, Eq)]
pub struct Collection {
    pub next_id: Id,
    pub items: Items,
}

impl Default for Collection {
    fn default() -> (r: Self)
        ensures
            r.next_id == 0,
            r.items@ == Map::<Id, Ref>::empty(),
    {
        Self { next_id: 0, items: HashMap::new() }
    }
}

/// Whether some entity of `items` stands for `needle`.
pub open spec fn refers_to(items: Map<Id, Ref>, needle: Ref) -> bool {
    exists|id: Id| #[trigger] items.contains_key(id) && items[id] == needle
}

/// An entity of `entities` that stands for `needle`, if there is one.
pub fn locate(entities: &Items, needle: &Ref) -> (r: Option<Id>)
    ensures
        r is None == !refers_to(entities@, *needle),
        r matches Some(id) ==> entities@.contains_key(id) && entities@[id] == *needle,
{
    for entry in it: entities.iter()
        invariant
            forall|j: int| 0 <= j < it.index() ==> *it.seq()[j].1 != *needle,
    {
        let (hs_id, hs_ref) = entry;
        if *needle == *hs_ref {
            return Some(*hs_id);
        }
    }
    None
}

/// `r` is what adding an entity standing for `entity_ref` to `before` gives:
/// refused when another entity already stands for it (any number may stand
/// for nothing), or when the numbers have run out.
pub open spec fn adds(before: State, entity_ref: Ref, r: ActionResult) -> bool {
    let items = before.entities.items@;
    let id = before.entities.next_id;
    let fresh = entity_ref == Ref::Nothing || !refers_to(items, entity_ref);
    match r {
        Ok(after) => {
            &&& fresh
            &&& id < usize::MAX
            &&& after.entities.next_id == id + 1
            &&& after.entities.items@ == items.insert(id, entity_ref)
        },
        Err(e) => (!fresh && e == CmdErr::AlreadyExists) || (fresh && id == usize::MAX && e
            == CmdErr::OutOfRange),
    }
}

/// `r` is what removing entity `id` from `before` gives.
pub open spec fn removes(before: State, id: Id, r: ActionResult) -> bool {
    match r {
        Ok(after) => {
            &&& before.entities.items@.contains_key(id)
            &&& after.entities.next_id == before.entities.next_id
            &&& after.entities.items@ == before.entities.items@.remove(id)
        },
        Err(e) => !before.entities.items@.contains_key(id) && e == CmdErr::NotFound,
    }
}

pub fn add(state: State, entity_ref: Ref) -> (r: ActionResult)
    ensures
        adds(state, entity_ref, r),
{
    let entities = state.entities;
    if entity_ref != Ref::Nothing && locate(&entities.items, &entity_ref).is_some() {
        return Err(CmdErr::AlreadyExists);
    }
    if entities.next_id == usize::MAX {
        return Err(CmdErr::OutOfRange);
    }
    let mut items = entities.items;
    items.insert(entities.next_id, entity_ref);
    let next_id = entities.next_id + 1;
    Ok(State { entities: Collection { next_id, items } })
}

pub fn remove(state: State, entity_id: Id) -> (r: ActionResult)
    ensures
        removes(state, entity_id, r),
{
    let mut items = state.entities.items;
    match items.remove(&entity_id) {
        None => Err(CmdErr::NotFound),
        Some(_) => Ok(State { entities: Collection { items, ..state.entities } }),
    }
}

} // verus!
