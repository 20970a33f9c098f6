use vstd::prelude::*;

use crate::component::description::{self, description_of};
use crate::component::entity_type::{self, kind_of, EntityType};
use crate::component::name::{self, name_of};
use crate::model::entity;
use crate::model::scenario::holder_of;
use crate::registry::{entity_id, Id, PubId};
use crate::state::State;

verus! {

/// Whether `scenario_pub_id` is a scenario.
pub fn present(state: &State, scenario_pub_id: PubId) -> (r: bool)
    ensures
        r == (kind_of(*state, scenario_pub_id) == EntityType::Scenario),
{
    entity_type::qry::is(state, scenario_pub_id, EntityType::Scenario)
}

/// The internal identifier of the scenario, or 0 when it is no scenario.
pub fn id(state: &State, scenario_pub_id: PubId) -> (r: Id)
    ensures
        r == if kind_of(*state, scenario_pub_id) == EntityType::Scenario {
            entity_id(*state, scenario_pub_id)
        } else {
            0
        },
{
    if present(state, scenario_pub_id) {
        entity::qry::id(state, scenario_pub_id)
    } else {
        0
    }
}

/// The name of the scenario, empty when it has none.
pub fn name(state: &State, scenario_pub_id: PubId) -> (r: String)
    ensures
        r@ == name_of(*state, scenario_pub_id),
{
    name::qry::get(state, scenario_pub_id)
}

/// The description of the scenario, empty when it has none.
pub fn description(state: &State, scenario_pub_id: PubId) -> (r: String)
    ensures
        r@ == description_of(*state, scenario_pub_id),
{
    description::qry::get(state, scenario_pub_id)
}

/// The external identifier of the scenario that holds `character_pub_id`,
/// if it is in one that is registered.
pub fn find_character(state: &State, character_pub_id: PubId) -> (r: Option<PubId>)
    ensures
        r == holder_of(*state, character_pub_id),
{
    let character_id = entity::qry::id(state, character_pub_id);
    let scenario_id = match state.scenario_entity.parent(character_id) {
        Some(p) => p,
        None => 0,
    };
    entity::qry::pub_id(state, scenario_id)
}

} // verus!
