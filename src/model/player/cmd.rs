use vstd::prelude::*;

use crate::applicable::CmdResult;
use crate::component::entity_type::EntityType;
use crate::component::name::{named, Name};
use crate::model::entity::{self, created_named};
use crate::model::player::PlayerId;
use crate::registry::{deregistered, entity_id};
use crate::state::State;

verus! {

/// Adds a player named `starting_name`.
pub fn add(state: State, player_id: PlayerId, starting_name: &Name) -> (r: CmdResult<State>)
    requires
        state.wf(),
    ensures
        created_named(state, player_id, EntityType::Player, starting_name@, r),
        r matches Ok(s) ==> s.wf(),
{
    entity::cmd::create_named(state, player_id, EntityType::Player, starting_name)
}

/// Removes a player.
pub fn remove(state: State, player_id: PlayerId) -> (r: CmdResult<State>)
    requires
        state.wf(),
    ensures
        deregistered(state, entity_id(state, player_id), r),
{
    entity::cmd::remove(state, player_id)
}

/// Renames a player.
pub fn rename(state: State, player_id: PlayerId, new_name: &Name) -> (r: CmdResult<State>)
    requires
        state.wf(),
    ensures
        named(state, player_id, new_name@, r),
        r matches Ok(s) ==> s.wf(),
{
    entity::cmd::name(state, player_id, new_name)
}

} // verus!
