//! Entities in general: the commands and queries that the more specific
//! models (players, characters, scenarios) are built from.
use vstd::prelude::*;

use crate::applicable::{Applicable, CmdResult};
use crate::component::description::described;
use crate::component::entity_type::{classified, EntityType};
use crate::component::name::named;
use crate::registry::{deregistered, entity_id, is_registered, registered, registers, PubId};
use crate::state::State;

pub mod cmd;
pub mod qry;

verus! {

pub type EntityId = PubId;

/// `r` is what adding `pub_id` to `before` as an entity classified `t` gives:
/// it is registered under the next internal identifier and classified, or
/// refused as registering it would be.
pub open spec fn created(before: State, pub_id: PubId, t: EntityType, r: CmdResult<State>) -> bool {
    let id = before.registry.next_id;
    match r {
        Ok(s) => {
            &&& !is_registered(before, pub_id)
            &&& id < usize::MAX
            &&& s == (State { registry: s.registry, entity_type: s.entity_type, ..before })
            &&& registers(before.registry, s.registry, pub_id)
            &&& s.entity_type@ == before.entity_type@.insert(id, t)
        },
        Err(e) => registered(before, pub_id, Err(e)),
    }
}

/// As `created`, and the new entity is named `name`.
pub open spec fn created_named(
    before: State,
    pub_id: PubId,
    t: EntityType,
    name: Seq<char>,
    r: CmdResult<State>,
) -> bool {
    let id = before.registry.next_id;
    match r {
        Ok(s) => {
            &&& !is_registered(before, pub_id)
            &&& id < usize::MAX
            &&& s == (State {
                registry: s.registry,
                entity_type: s.entity_type,
                name: s.name,
                ..before
            })
            &&& registers(before.registry, s.registry, pub_id)
            &&& s.entity_type@ == before.entity_type@.insert(id, t)
            &&& s.name@ == before.name@.insert(id, s.name@[id])
            &&& s.name@[id]@ == name
        },
        Err(e) => registered(before, pub_id, Err(e)),
    }
}

/// The entity commands, as values.
#[derive(Debug, PartialEq, Eq)]
pub enum Entity {
    Add(PubId),
    Remove(PubId),
    Classify(PubId, EntityType),
    Name(PubId, String),
    Describe(PubId, String),
}

impl Applicable for Entity {
    open spec fn accepts(&self, state: State) -> bool {
        true
    }

    open spec fn produces(&self, before: State, after: CmdResult<State>) -> bool {
        match *self {
            Entity::Add(pub_id) => registered(before, pub_id, after),
            Entity::Remove(pub_id) => deregistered(before, entity_id(before, pub_id), after),
            Entity::Classify(pub_id, entity_type) => classified(before, pub_id, entity_type, after),
            Entity::Name(pub_id, name) => named(before, pub_id, name@, after),
            Entity::Describe(pub_id, text) => described(before, pub_id, text@, after),
        }
    }

    fn apply_to(self, state: State) -> (r: CmdResult<State>) {
        match self {
            Entity::Add(pub_id) => cmd::add(state, pub_id),
            Entity::Remove(pub_id) => cmd::remove(state, pub_id),
            Entity::Classify(pub_id, entity_type) => cmd::classify(state, pub_id, entity_type),
            Entity::Name(pub_id, name) => cmd::name(state, pub_id, name.as_str()),
            Entity::Describe(pub_id, text) => cmd::describe(state, pub_id, text.as_str()),
        }
    }

    fn apply_to_default(self) -> (r: CmdResult<State>) {
        let ghost command = self;
        let state = State::default();
        let r = self.apply_to(state);
        proof {
            assert(state.is_initial() && state.wf() && command.produces(state, r));
        }
        r
    }
}

} // verus!
