use vstd::prelude::*;

use crate::applicable::{CmdErr, CmdResult};
use crate::component::entity_type::{classified, EntityType};
use crate::registry::PubId;
use crate::model::entity::qry;
use crate::state::State;

verus! {

/// Classifies an entity, once. `Missing` cannot be set by hand.
pub fn classify(state: State, pub_id: PubId, entity_type: EntityType) -> (r: CmdResult<State>)
    requires
        state.wf(),
    ensures
        classified(state, pub_id, entity_type, r),
        r matches Ok(s) ==> s.wf(),
{
    let mut state = state;
    let id = qry::id(&state, pub_id);
    if entity_type == EntityType::Missing {
        return Err(CmdErr::PreconditionFailed);
    }
    if id == 0 {
        return Err(CmdErr::NotFound);
    }
    match state.entity_type.insert(id, entity_type) {
        Ok(()) => Ok(state),
        Err(e) => Err(e),
    }
}

} // verus!
