use vstd::prelude::*;

use crate::component::entity_type::{self, kind_of, EntityType};
use crate::component::name::{self, name_of};
use crate::registry::{self, entity_id, is_registered, Id, PubId};
use crate::state::State;

verus! {

/// Whether an entity is registered as `entity_pub_id`.
pub fn present(state: &State, entity_pub_id: PubId) -> (r: bool)
    requires
        state.wf(),
    ensures
        r == is_registered(*state, entity_pub_id),
{
    id(state, entity_pub_id) != 0
}

/// The internal identifier of `entity_pub_id`, or 0 when it is unknown.
pub fn id(state: &State, entity_pub_id: PubId) -> (r: Id)
    ensures
        r == entity_id(*state, entity_pub_id),
{
    registry::id(state, entity_pub_id)
}

/// The external identifier of the internal identifier `entity_id`.
pub fn pub_id(state: &State, entity_id: Id) -> (r: Option<PubId>)
    ensures
        r is Some == state.registry.id_dict@.contains_key(entity_id),
        r is Some ==> r.unwrap() == state.registry.id_dict@[entity_id],
{
    registry::pub_id(state, entity_id)
}

/// The classification of `entity_pub_id`.
pub fn kind(state: &State, entity_pub_id: PubId) -> (r: EntityType)
    ensures
        r == kind_of(*state, entity_pub_id),
{
    entity_type::qry::get(state, entity_pub_id)
}

/// Whether `entity_pub_id` is classified as `entity_type`.
pub fn is(state: &State, entity_pub_id: PubId, entity_type: EntityType) -> (r: bool)
    ensures
        r == (kind_of(*state, entity_pub_id) == entity_type),
{
    entity_type::qry::is(state, entity_pub_id, entity_type)
}

/// The name of `entity_pub_id`, empty when it has none.
pub fn name(state: &State, entity_pub_id: PubId) -> (r: String)
    ensures
        r@ == name_of(*state, entity_pub_id),
{
    name::qry::get(state, entity_pub_id)
}

} // verus!
