use vstd::prelude::*;

use crate::component::entity_type::{kind_of, EntityType};
use crate::registry::PubId;
use crate::model::entity;
use crate::state::State;

verus! {

/// Whether `pub_id` is classified as `entity_type`.
pub fn is(state: &State, pub_id: PubId, entity_type: EntityType) -> (r: bool)
    ensures
        r == (kind_of(*state, pub_id) == entity_type),
{
    get(state, pub_id) == entity_type
}

/// The classification of `pub_id`.
pub fn get(state: &State, pub_id: PubId) -> (r: EntityType)
    ensures
        r == kind_of(*state, pub_id),
{
    let id = entity::qry::id(state, pub_id);
    if !state.registry.has_id(&id) || id == 0 {
        return EntityType::Missing;
    }
    match state.entity_type.get(id) {
        Some(entity_type) => entity_type,
        _ => EntityType::Generic,
    }
}

} // verus!
