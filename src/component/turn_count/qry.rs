use vstd::prelude::*;

use crate::component::turn_count::{count_of, TurnCount};
use crate::model::entity;
use crate::registry::PubId;
use crate::state::State;

verus! {

/// How many turns an entity has taken; 0 when none are counted.
pub fn count(state: &State, pub_id: PubId) -> (r: TurnCount)
    ensures
        r == count_of(*state, pub_id),
{
    let id = entity::qry::id(state, pub_id);
    match state.turn_count.get(id) {
        Some(n) => n,
        None => 0,
    }
}

} // verus!
