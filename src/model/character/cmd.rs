use vstd::prelude::*;

use crate::applicable::{CmdErr, CmdResult};
use crate::component::entity_type::{self, EntityType};
use crate::component::name::{named, Name};
use crate::model::character::{
    character_removed, player_assigned, player_released, player_unassigned,
};
use crate::model::entity::{self, created_named};
use crate::registry::{self, PubId};
use crate::state::State;

verus! {

/// Adds a character named `starting_name`.
pub fn add(state: State, character_pub_id: PubId, starting_name: &Name) -> (r: CmdResult<State>)
    requires
        state.wf(),
    ensures
        created_named(state, character_pub_id, EntityType::Character, starting_name@, r),
        r matches Ok(s) ==> s.wf(),
{
    entity::cmd::create_named(state, character_pub_id, EntityType::Character, starting_name)
}

/// Makes the player `player_pub_id` the player of the character
/// `character_pub_id`, replacing any earlier one.
pub fn assign_player(state: State, character_pub_id: PubId, player_pub_id: PubId) -> (r: CmdResult<
    State,
>)
    requires
        state.wf(),
    ensures
        player_assigned(state, character_pub_id, player_pub_id, r),
        r matches Ok(s) ==> s.wf(),
{
    let mut state = state;
    if !entity_type::qry::is(&state, character_pub_id, EntityType::Character) {
        return Err(CmdErr::PreconditionFailed);
    }
    if !entity_type::qry::is(&state, player_pub_id, EntityType::Player) {
        return Err(CmdErr::PreconditionFailed);
    }
    let character_id = entity::qry::id(&state, character_pub_id);
    let player_id = entity::qry::id(&state, player_pub_id);
    match state.character_player.set_parent(character_id, player_id) {
        Ok(()) => Ok(state),
        Err(e) => Err(e),
    }
}

/// Detaches the character `character_pub_id` from its player.
pub fn remove_player(state: State, character_pub_id: PubId) -> (r: CmdResult<State>)
    requires
        state.wf(),
    ensures
        player_unassigned(state, character_pub_id, r),
        r matches Ok(s) ==> s.wf(),
{
    let mut state = state;
    if !entity_type::qry::is(&state, character_pub_id, EntityType::Character) {
        return Err(CmdErr::PreconditionFailed);
    }
    let character_id = entity::qry::id(&state, character_pub_id);
    if !state.character_player.is_child(character_id) {
        return Err(CmdErr::NotFound);
    }
    match state.character_player.remove_parent(character_id) {
        Ok(()) => Ok(state),
        Err(e) => Err(e),
    }
}

/// Detaches every character of the player `player_pub_id` from it.
pub fn remove_player_form_all(state: State, player_pub_id: PubId) -> (r: CmdResult<State>)
    requires
        state.wf(),
    ensures
        player_released(state, player_pub_id, r),
        r matches Ok(s) ==> s.wf(),
{
    let mut state = state;
    if !entity_type::qry::is(&state, player_pub_id, EntityType::Player) {
        return Err(CmdErr::PreconditionFailed);
    }
    let player_id = entity::qry::id(&state, player_pub_id);
    let _ = state.character_player.free_children_from(player_id);
    Ok(state)
}

/// Renames a character.
pub fn rename(state: State, character_pub_id: PubId, new_name: &Name) -> (r: CmdResult<State>)
    requires
        state.wf(),
    ensures
        named(state, character_pub_id, new_name@, r),
        r matches Ok(s) ==> s.wf(),
{
    entity::cmd::name(state, character_pub_id, new_name)
}

/// Removes a character, detaching it from its player first.
pub fn remove(state: State, character_pub_id: PubId) -> (r: CmdResult<State>)
    requires
        state.wf(),
    ensures
        character_removed(state, character_pub_id, r),
{
    let mut state = state;
    let id = entity::qry::id(&state, character_pub_id);
    let ghost before = state;
    if entity_type::qry::is(&state, character_pub_id, EntityType::Character)
        && state.character_player.is_child(id) {
        let _ = state.character_player.remove_parent(id);
        let ghost mid = state;
        let r = registry::deregister(state, id);
        proof {
            assert(mid == (State { character_player: mid.character_player, ..before }));
        }
        r
    } else {
        registry::deregister(state, id)
    }
}

} // verus!
