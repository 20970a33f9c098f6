//! The play mode of a scenario, or the status of an entity's turn.
use vstd::prelude::*;

use crate::applicable::{CmdErr, CmdResult};
use crate::component::component::ComponentValue;
use crate::registry::{entity_id, is_registered, PubId};
use crate::state::State;

pub mod cmd;
pub mod qry;

verus! {

#[derive(Debug, Clone, Copy, PartialEq, Eq, Structural)]
pub enum TurnStatus {
    Free,
    Available,
    Active,
    Paused,
    Completed,
    Skipped,
    Held(usize),
    NoTurn,
}

impl View for TurnStatus {
    type V = TurnStatus;

    open spec fn view(&self) -> TurnStatus {
        *self
    }
}

impl ComponentValue for TurnStatus {
    fn duplicate(&self) -> (r: TurnStatus) {
        *self
    }
}

/// The status stored for `pub_id` in `s`: `NoTurn` for an unregistered entity
/// or when none is stored.
pub open spec fn status_of(s: State, pub_id: PubId) -> TurnStatus {
    let id = entity_id(s, pub_id);
    if !s.registry.id_dict@.contains_key(id) || id == 0 {
        TurnStatus::NoTurn
    } else if s.turn_state@.contains_key(id) {
        s.turn_state@[id]
    } else {
        TurnStatus::NoTurn
    }
}

/// `r` is what recording `status` for `pub_id` of `before` gives: refused for
/// an unregistered entity; `NoTurn` clears what is stored, anything else is
/// stored.
pub open spec fn status_recorded(before: State, pub_id: PubId, status: TurnStatus, r: CmdResult<State>) -> bool {
    let id = entity_id(before, pub_id);
    match r {
        Ok(s) => {
            &&& is_registered(before, pub_id)
            &&& s == (State { turn_state: s.turn_state, ..before })
            &&& s.turn_state@ == if status == TurnStatus::NoTurn {
                before.turn_state@.remove(id)
            } else {
                before.turn_state@.insert(id, status)
            }
        },
        Err(e) => !is_registered(before, pub_id) && e == CmdErr::NotFound,
    }
}

} // verus!
