use vstd::prelude::*;

use crate::component::entity_type::{self, kind_of, EntityType};
use crate::component::name::{self, name_of};
use crate::model::entity;
use crate::registry::{entity_id, Id, PubId};
use crate::state::State;

verus! {

/// Whether `character_pub_id` is a character.
pub fn present(state: &State, character_pub_id: PubId) -> (r: bool)
    ensures
        r == (kind_of(*state, character_pub_id) == EntityType::Character),
{
    entity_type::qry::is(state, character_pub_id, EntityType::Character)
}

/// The internal identifier of the character, or 0 when it is no character.
pub fn id(state: &State, character_pub_id: PubId) -> (r: Id)
    ensures
        r == if kind_of(*state, character_pub_id) == EntityType::Character {
            entity_id(*state, character_pub_id)
        } else {
            0
        },
{
    if present(state, character_pub_id) {
        entity::qry::id(state, character_pub_id)
    } else {
        0
    }
}

/// The external identifier of the character's player, if it is a character
/// with a registered player.
pub fn player(state: &State, character_pub_id: PubId) -> (r: Option<PubId>)
    ensures
        r is Some == (kind_of(*state, character_pub_id) == EntityType::Character
            && state.registry.id_dict@.contains_key(
            if state.character_player.parents().contains_key(entity_id(*state, character_pub_id)) {
                state.character_player.parents()[entity_id(*state, character_pub_id)]
            } else {
                0
            },
        )),
        r matches Some(p) ==> p == state.registry.id_dict@[if state.character_player.parents().contains_key(
            entity_id(*state, character_pub_id),
        ) {
            state.character_player.parents()[entity_id(*state, character_pub_id)]
        } else {
            0
        }],
{
    if !present(state, character_pub_id) {
        return None;
    }
    let child_id = id(state, character_pub_id);
    let parent_id = match state.character_player.parent(child_id) {
        Some(p) => p,
        None => 0,
    };
    entity::qry::pub_id(state, parent_id)
}

/// The name of the character, empty when it has none.
pub fn name(state: &State, character_pub_id: PubId) -> (r: String)
    ensures
        r@ == name_of(*state, character_pub_id),
{
    name::qry::get(state, character_pub_id)
}

} // verus!
