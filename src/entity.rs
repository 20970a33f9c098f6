//! Named entities of the event-driven store, numbered from 0.
use std::collections::HashMap;
use vstd::prelude::*;

use crate::applicable::CmdErr;
use crate::event;

verus! {

broadcast use vstd::std_specs::hash::group_hash_axioms;

pub type Id = usize;

pub type Name = String;

pub type Entities = HashMap<Id, Entity>;

#[derive(Debug, Clone, PartialEq, Eq)]
pub struct Entity {
    pub name: Name,
}

impl Entity {
    pub fn new(name: Name) -> (r: Self)
        ensures
            r.name == name,
    {
        Self { name }
    }

    fn set_name(entity: &Entity, name: Name) -> (r: Self)
        ensures
            r.name == name,
    {
        Self { name }
    }
}

impl Default for Entity {
    fn default() -> (r: Self)
        ensures
            r.name@ == "Unnamed Entity"@,
    {
        Self { name: "Unnamed Entity".to_string() }
    }
}

#[derive(Debug, Clone, PartialEq, Eq)]
pub struct State {
    pub next_entity_id: Id,
    pub entities: Entities,
}

impl Default for State {
    fn default() -> (r: Self)
        ensures
            r.next_entity_id == 0,
            r.entities@ == Map::<Id, Entity>::empty(),
    {
        Self { next_entity_id: 0, entities: HashMap::new() }
    }
}

/// `r` is what adding an entity named `name` to `before` gives: refused for
/// an empty name, else stored under the next number.
pub open spec fn adds(before: event::State, name: Seq<char>, r: event::ActionResult) -> bool {
    let id = before.entity.next_entity_id;
    match r {
        Ok(after) => {
            &&& name.len() > 0
            &&& id < usize::MAX
            &&& after == (event::State { entity: after.entity, ..before })
            &&& after.entity.next_entity_id == id + 1
            &&& after.entity.entities@ == before.entity.entities@.insert(
                id,
                after.entity.entities@[id],
            )
            &&& after.entity.entities@[id].name@ == name
        },
        Err(e) => (name.len() == 0 && e == CmdErr::PreconditionFailed) || (name.len() > 0 && id
            == usize::MAX && e == CmdErr::OutOfRange),
    }
}

/// `r` is what renaming entity `id` of `before` to `name` gives: refused for
/// a missing entity or an unchanged name.
pub open spec fn renames(before: event::State, id: Id, name: Seq<char>, r: event::ActionResult) -> bool {
    let entities = before.entity.entities@;
    match r {
        Ok(after) => {
            &&& entities.contains_key(id)
            &&& entities[id].name@ != name
            &&& after == (event::State { entity: after.entity, ..before })
            &&& after.entity.next_entity_id == before.entity.next_entity_id
            &&& after.entity.entities@ == entities.insert(id, after.entity.entities@[id])
            &&& after.entity.entities@[id].name@ == name
        },
        Err(e) => (!entities.contains_key(id) && e == CmdErr::NotFound) || (entities.contains_key(id)
            && entities[id].name@ == name && e == CmdErr::PreconditionFailed),
    }
}

/// `r` is what removing entity `id` from `before` gives.
pub open spec fn removes(before: event::State, id: Id, r: event::ActionResult) -> bool {
    match r {
        Ok(after) => {
            &&& before.entity.entities@.contains_key(id)
            &&& after == (event::State { entity: after.entity, ..before })
            &&& after.entity.next_entity_id == before.entity.next_entity_id
            &&& after.entity.entities@ == before.entity.entities@.remove(id)
        },
        Err(e) => !before.entity.entities@.contains_key(id) && e == CmdErr::NotFound,
    }
}

pub fn add(state: event::State, name: &Name) -> (r: event::ActionResult)
    ensures
        adds(state, name@, r),
{
    if name.as_str().is_empty() {
        return Err(CmdErr::PreconditionFailed);
    }
    let entity_id = state.entity.next_entity_id;
    if entity_id == usize::MAX {
        return Err(CmdErr::OutOfRange);
    }
    let mut entities = state.entity.entities;
    entities.insert(entity_id, Entity::new(name.clone()));
    Ok(event::State { entity: State { next_entity_id: entity_id + 1, entities }, ..state })
}

pub fn rename(state: event::State, entity_id: Id, new_name: &Name) -> (r: event::ActionResult)
    ensures
        renames(state, entity_id, new_name@, r),
{
    let updated = match state.entity.entities.get(&entity_id) {
        None => return Err(CmdErr::NotFound),
        Some(target) => {
            if target.name == *new_name {
                return Err(CmdErr::PreconditionFailed);
            }
            Entity::set_name(target, new_name.clone())
        },
    };
    let mut entities = state.entity.entities;
    entities.insert(entity_id, updated);
    Ok(event::State { entity: State { entities, ..state.entity }, ..state })
}

pub fn remove(state: event::State, entity_id: Id) -> (r: event::ActionResult)
    ensures
        removes(state, entity_id, r),
{
    let mut entities = state.entity.entities;
    match entities.remove(&entity_id) {
        None => Err(CmdErr::NotFound),
        Some(_) => Ok(event::State { entity: State { entities, ..state.entity }, ..state }),
    }
}

/// A copy of entity `entity_id`, if there is one.
pub fn by_id(state: &event::State, entity_id: Id) -> (r: Option<Entity>)
    ensures
        r is Some == state.entity.entities@.contains_key(entity_id),
        r matches Some(e) ==> e.name@ == state.entity.entities@[entity_id].name@,
{
    match state.entity.entities.get(&entity_id) {
        Some(entity) => Some(Entity::new(entity.name.clone())),
        None => None,
    }
}

} // verus!
