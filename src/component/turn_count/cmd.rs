use vstd::prelude::*;

use crate::applicable::{CmdErr, CmdResult};
use crate::component::turn_count::{count_reset, counted, qry, TurnCount};
use crate::model::entity;
use crate::registry::PubId;
use crate::state::State;

verus! {

/// Counts one more turn for an entity.
pub fn count(state: State, pub_id: PubId) -> (r: CmdResult<State>)
    requires
        state.wf(),
    ensures
        counted(state, pub_id, r),
        r matches Ok(s) ==> s.wf(),
{
    let mut state = state;
    let id = entity::qry::id(&state, pub_id);
    if id == 0 {
        return Err(CmdErr::NotFound);
    }
    let current = qry::count(&state, pub_id);
    if current == TurnCount::MAX {
        return Err(CmdErr::OutOfRange);
    }
    let _ = state.turn_count.update(id, current + 1);
    Ok(state)
}

/// Clears the turn count of an entity.
pub fn reset(state: State, pub_id: PubId) -> (r: CmdResult<State>)
    requires
        state.wf(),
    ensures
        count_reset(state, pub_id, r),
        r matches Ok(s) ==> s.wf(),
{
    let mut state = state;
    let id = entity::qry::id(&state, pub_id);
    match state.turn_count.delete(id) {
        Ok(()) => Ok(state),
        Err(e) => Err(e),
    }
}

} // verus!
