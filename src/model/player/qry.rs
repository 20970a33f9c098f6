use vstd::prelude::*;

use crate::component::entity_type::{self, kind_of, EntityType};
use crate::component::name::{self, name_of};
use crate::model::entity;
use crate::model::player::PlayerId;
use crate::registry::{entity_id, Id};
use crate::state::State;

verus! {

/// Whether `player_id` is a player.
pub fn present(state: &State, player_id: PlayerId) -> (r: bool)
    ensures
        r == (kind_of(*state, player_id) == EntityType::Player),
{
    entity_type::qry::is(state, player_id, EntityType::Player)
}

/// The internal identifier of the player `player_id`, or 0 when it is no
/// player.
pub fn id(state: &State, player_id: PlayerId) -> (r: Id)
    ensures
        r == if kind_of(*state, player_id) == EntityType::Player {
            entity_id(*state, player_id)
        } else {
            0
        },
{
    if present(state, player_id) {
        entity::qry::id(state, player_id)
    } else {
        0
    }
}

/// The name of the player, empty when it has none.
pub fn name(state: &State, player_id: PlayerId) -> (r: String)
    ensures
        r@ == name_of(*state, player_id),
{
    name::qry::get(state, player_id)
}

} // verus!
