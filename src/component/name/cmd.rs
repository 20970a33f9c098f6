use vstd::prelude::*;

use crate::applicable::{CmdErr, CmdResult};
use crate::component::name::{named, Name};
use crate::model::entity::qry;
use crate::registry::PubId;
use crate::state::State;

verus! {

/// Sets the name of an entity.
pub fn set(state: State, entity_pub_id: PubId, new_name: &Name) -> (r: CmdResult<State>)
    requires
        state.wf(),
    ensures
        named(state, entity_pub_id, new_name@, r),
        r matches Ok(s) ==> s.wf(),
{
    let mut state = state;
    let id = qry::id(&state, entity_pub_id);
    if id == 0 {
        return Err(CmdErr::NotFound);
    }
    let _ = state.name.update(id, new_name.to_string());
    Ok(state)
}

} // verus!
