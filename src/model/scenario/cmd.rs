use vstd::prelude::*;

use crate::applicable::{CmdErr, CmdResult};
use crate::component::description::{described, Description};
use crate::component::entity_type::{self, EntityType};
use crate::component::name::{named, Name};
use crate::model::entity::{self, created};
use crate::model::scenario::{entities_released, entity_captured, entity_released};
use crate::registry::{deregistered, entity_id, PubId};
use crate::state::State;

verus! {

/// Adds a scenario.
pub fn add(state: State, scenario_pub_id: PubId) -> (r: CmdResult<State>)
    requires
        state.wf(),
    ensures
        created(state, scenario_pub_id, EntityType::Scenario, r),
        r matches Ok(s) ==> s.wf(),
{
    entity::cmd::create(state, scenario_pub_id, EntityType::Scenario)
}

/// Removes a scenario.
pub fn remove(state: State, scenario_pub_id: PubId) -> (r: CmdResult<State>)
    requires
        state.wf(),
    ensures
        deregistered(state, entity_id(state, scenario_pub_id), r),
{
    entity::cmd::remove(state, scenario_pub_id)
}

/// Renames a scenario.
pub fn rename(state: State, scenario_pub_id: PubId, new_name: &Name) -> (r: CmdResult<State>)
    requires
        state.wf(),
    ensures
        named(state, scenario_pub_id, new_name@, r),
        r matches Ok(s) ==> s.wf(),
{
    entity::cmd::name(state, scenario_pub_id, new_name)
}

/// Describes a scenario.
pub fn describe(state: State, scenario_pub_id: PubId, desc: &Description) -> (r: CmdResult<State>)
    requires
        state.wf(),
    ensures
        described(state, scenario_pub_id, desc@, r),
        r matches Ok(s) ==> s.wf(),
{
    entity::cmd::describe(state, scenario_pub_id, desc)
}

/// Places the character `character_pub_id` in the scenario
/// `scenario_pub_id`, taking it out of any other.
pub fn assign_entity(state: State, scenario_pub_id: PubId, character_pub_id: PubId) -> (r:
    CmdResult<State>)
    requires
        state.wf(),
    ensures
        entity_captured(state, scenario_pub_id, character_pub_id, r),
        r matches Ok(s) ==> s.wf(),
{
    let mut state = state;
    if !entity_type::qry::is(&state, scenario_pub_id, EntityType::Scenario) {
        return Err(CmdErr::PreconditionFailed);
    }
    if !entity_type::qry::is(&state, character_pub_id, EntityType::Character) {
        return Err(CmdErr::PreconditionFailed);
    }
    let scenario_id = entity::qry::id(&state, scenario_pub_id);
    let character_id = entity::qry::id(&state, character_pub_id);
    match state.scenario_entity.set_parent(character_id, scenario_id) {
        Ok(()) => Ok(state),
        Err(e) => Err(e),
    }
}

/// Takes the character `character_pub_id` out of its scenario.
pub fn release_entity(state: State, character_pub_id: PubId) -> (r: CmdResult<State>)
    requires
        state.wf(),
    ensures
        entity_released(state, character_pub_id, r),
        r matches Ok(s) ==> s.wf(),
{
    let mut state = state;
    if !entity_type::qry::is(&state, character_pub_id, EntityType::Character) {
        return Err(CmdErr::PreconditionFailed);
    }
    let character_id = entity::qry::id(&state, character_pub_id);
    if !state.scenario_entity.is_child(character_id) {
        return Err(CmdErr::NotFound);
    }
    match state.scenario_entity.remove_parent(character_id) {
        Ok(()) => Ok(state),
        Err(e) => Err(e),
    }
}

/// Takes every character out of the scenario `scenario_pub_id`.
pub fn release_all_entities(state: State, scenario_pub_id: PubId) -> (r: CmdResult<State>)
    requires
        state.wf(),
    ensures
        entities_released(state, scenario_pub_id, r),
        r matches Ok(s) ==> s.wf(),
{
    let mut state = state;
    if !entity_type::qry::is(&state, scenario_pub_id, EntityType::Scenario) {
        return Err(CmdErr::PreconditionFailed);
    }
    let scenario_id = entity::qry::id(&state, scenario_pub_id);
    let _ = state.scenario_entity.free_children_from(scenario_id);
    Ok(state)
}

} // verus!
