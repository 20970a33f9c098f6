use vstd::prelude::*;

use crate::applicable::{CmdErr, CmdResult};
use crate::component::description::{described, Description};
use crate::model::entity::qry;
use crate::registry::PubId;
use crate::state::State;

verus! {

/// Sets the description of an entity.
pub fn set(state: State, entity_pub_id: PubId, new_description: &Description) -> (r: CmdResult<State>)
    requires
        state.wf(),
    ensures
        described(state, entity_pub_id, new_description@, r),
        r matches Ok(s) ==> s.wf(),
{
    let mut state = state;
    let id = qry::id(&state, entity_pub_id);
    if id == 0 {
        return Err(CmdErr::NotFound);
    }
    let _ = state.description.update(id, new_description.to_string());
    Ok(state)
}

} // verus!
