use vstd::prelude::*;

use crate::component::name::name_of;
use crate::model::entity::qry;
use crate::registry::PubId;
use crate::state::State;

verus! {

/// The name of an entity, empty when it has none.
pub fn get(state: &State, entity_pub_id: PubId) -> (r: String)
    ensures
        r@ == name_of(*state, entity_pub_id),
{
    let id = qry::id(state, entity_pub_id);
    match state.name.get(id) {
        Some(name) => name,
        None => String::new(),
    }
}

} // verus!
