//! Scenarios: entities classified `Scenario`, with a name, a description and
//! the characters taking part.
use vstd::prelude::*;

use crate::applicable::{Applicable, CmdErr, CmdResult};
use crate::component::description::described;
use crate::component::entity_type::{kind_of, EntityType};
use crate::component::name::named;
use crate::model::entity::created;
use crate::registry::{deregistered, entity_id, PubId};
use crate::state::State;
use crate::structure::hierarchy::{children_freed, parent_removed, parent_set};

pub mod cmd;
pub mod qry;

verus! {

pub type ScenarioId = PubId;

/// `r` is what placing the character `character_pub_id` in the scenario
/// `scenario_pub_id` of `before` gives.
pub open spec fn entity_captured(
    before: State,
    scenario_pub_id: PubId,
    character_pub_id: PubId,
    r: CmdResult<State>,
) -> bool {
    let sc = entity_id(before, scenario_pub_id);
    let c = entity_id(before, character_pub_id);
    let kinds = kind_of(before, scenario_pub_id) == EntityType::Scenario && kind_of(
        before,
        character_pub_id,
    ) == EntityType::Character;
    match r {
        Ok(s) => {
            &&& kinds
            &&& before.scenario_entity.can_set_parent(c, sc)
            &&& s == (State { scenario_entity: s.scenario_entity, ..before })
            &&& parent_set(before.scenario_entity, s.scenario_entity, c, sc)
        },
        Err(e) => (!kinds && e == CmdErr::PreconditionFailed) || (kinds
            && !before.scenario_entity.can_set_parent(c, sc)),
    }
}

/// `r` is what taking the character `character_pub_id` of `before` out of
/// its scenario gives.
pub open spec fn entity_released(before: State, character_pub_id: PubId, r: CmdResult<State>) -> bool {
    let c = entity_id(before, character_pub_id);
    let kind = kind_of(before, character_pub_id) == EntityType::Character;
    match r {
        Ok(s) => {
            &&& kind
            &&& before.scenario_entity.parents().contains_key(c)
            &&& s == (State { scenario_entity: s.scenario_entity, ..before })
            &&& parent_removed(before.scenario_entity, s.scenario_entity, c)
        },
        Err(e) => (!kind && e == CmdErr::PreconditionFailed) || (kind
            && !before.scenario_entity.parents().contains_key(c) && e == CmdErr::NotFound),
    }
}

/// `r` is what taking every character out of the scenario `scenario_pub_id`
/// of `before` gives.
pub open spec fn entities_released(before: State, scenario_pub_id: PubId, r: CmdResult<State>) -> bool {
    let sc = entity_id(before, scenario_pub_id);
    let kind = kind_of(before, scenario_pub_id) == EntityType::Scenario;
    match r {
        Ok(s) => {
            &&& kind
            &&& s == (State { scenario_entity: s.scenario_entity, ..before })
            &&& children_freed(before.scenario_entity, s.scenario_entity, sc)
        },
        Err(e) => !kind && e == CmdErr::PreconditionFailed,
    }
}

/// The external identifier of the scenario holding `character_pub_id` in
/// `s`, if it is in one that is registered.
pub open spec fn holder_of(s: State, character_pub_id: PubId) -> Option<PubId> {
    let c = entity_id(s, character_pub_id);
    let sc = if s.scenario_entity.parents().contains_key(c) {
        s.scenario_entity.parents()[c]
    } else {
        0
    };
    if s.registry.id_dict@.contains_key(sc) {
        Some(s.registry.id_dict@[sc])
    } else {
        None
    }
}

/// The scenario commands, as values.
#[derive(Debug, PartialEq, Eq)]
pub enum Scenario {
    Add(PubId),
    Remmove(PubId),
    Rename(PubId, String),
    Describe(PubId, String),
    CaptureEntity(PubId, PubId),
    ReleaseEntity(PubId),
    ReleaseAllEntities(PubId),
}

impl Applicable for Scenario {
    open spec fn accepts(&self, state: State) -> bool {
        true
    }

    open spec fn produces(&self, before: State, after: CmdResult<State>) -> bool {
        match *self {
            Scenario::Add(pub_id) => created(before, pub_id, EntityType::Scenario, after),
            Scenario::Remmove(pub_id) => deregistered(before, entity_id(before, pub_id), after),
            Scenario::Rename(pub_id, name) => named(before, pub_id, name@, after),
            Scenario::Describe(pub_id, text) => described(before, pub_id, text@, after),
            Scenario::CaptureEntity(pub_id, entity_pub_id) => entity_captured(
                before,
                pub_id,
                entity_pub_id,
                after,
            ),
            Scenario::ReleaseEntity(entity_pub_id) => entity_released(before, entity_pub_id, after),
            Scenario::ReleaseAllEntities(pub_id) => entities_released(before, pub_id, after),
        }
    }

    fn apply_to(self, state: State) -> (r: CmdResult<State>) {
        match self {
            Scenario::Add(pub_id) => cmd::add(state, pub_id),
            Scenario::Remmove(pub_id) => cmd::remove(state, pub_id),
            Scenario::Rename(pub_id, name) => cmd::rename(state, pub_id, name.as_str()),
            Scenario::Describe(pub_id, text) => cmd::describe(state, pub_id, text.as_str()),
            Scenario::CaptureEntity(pub_id, entity_pub_id) => cmd::assign_entity(
                state,
                pub_id,
                entity_pub_id,
            ),
            Scenario::ReleaseEntity(entity_pub_id) => cmd::release_entity(state, entity_pub_id),
            Scenario::ReleaseAllEntities(pub_id) => cmd::release_all_entities(state, pub_id),
        }
    }

    fn apply_to_default(self) -> (r: CmdResult<State>) {
        let ghost command = self;
        let state = State::default();
        let r = self.apply_to(state);
        proof {
            assert(state.is_initial() && state.wf() && command.produces(state, r));
        }
        r
    }
}

} // verus!
