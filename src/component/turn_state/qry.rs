use vstd::prelude::*;

use crate::component::turn_state::{status_of, TurnStatus};
use crate::model::entity;
use crate::registry::PubId;
use crate::state::State;

verus! {

/// The status of an entity's turn; `NoTurn` when it has none.
pub fn get(state: &State, pub_id: PubId) -> (r: TurnStatus)
    ensures
        r == status_of(*state, pub_id),
{
    let id = entity::qry::id(state, pub_id);
    if !state.registry.has_id(&id) || id == 0 {
        return TurnStatus::NoTurn;
    }
    match state.turn_state.get(id) {
        Some(turn_state) => turn_state,
        _ => TurnStatus::NoTurn,
    }
}

} // verus!
