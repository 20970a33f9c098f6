use vstd::prelude::*;

use crate::component::description::description_of;
use crate::model::entity::qry;
use crate::registry::PubId;
use crate::state::State;

verus! {

/// The description of an entity, empty when it has none.
pub fn get(state: &State, entity_pub_id: PubId) -> (r: String)
    ensures
        r@ == description_of(*state, entity_pub_id),
{
    let id = qry::id(state, entity_pub_id);
    match state.description.get(id) {
        Some(name) => name,
        None => String::new(),
    }
}

} // verus!
