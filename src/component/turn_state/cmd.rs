use vstd::prelude::*;

use crate::applicable::{CmdErr, CmdResult};
use crate::component::turn_state::{status_recorded, TurnStatus};
use crate::model::entity;
use crate::registry::PubId;
use crate::state::State;

verus! {

/// Records the status of an entity's turn; `NoTurn` is not stored but clears
/// the status.
pub fn set(state: State, pub_id: PubId, turn_state: TurnStatus) -> (r: CmdResult<State>)
    requires
        state.wf(),
    ensures
        status_recorded(state, pub_id, turn_state, r),
        r matches Ok(s) ==> s.wf(),
{
    let mut state = state;
    let id = entity::qry::id(&state, pub_id);
    if id == 0 {
        return Err(CmdErr::NotFound);
    }
    if turn_state == TurnStatus::NoTurn {
        let ghost before = state.turn_state@;
        let _ = state.turn_state.delete(id);
        proof {
            assert(state.turn_state@ =~= before.remove(id));
        }
        return Ok(state);
    }
    let _ = state.turn_state.update(id, turn_state);
    Ok(state)
}

} // verus!
