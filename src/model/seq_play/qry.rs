use vstd::prelude::*;

use crate::component::turn_state::{self, TurnStatus};
use crate::model::seq_play::initial_status;
use crate::registry::PubId;
use crate::state::State;

verus! {

/// The status a new turn in the scenario starts with: free in free play,
/// available in sequenced play.
pub fn new_turn_init_state(state: &State, scenario_id: PubId) -> (r: TurnStatus)
    ensures
        r == initial_status(*state, scenario_id),
{
    match turn_state::qry::get(state, scenario_id) {
        TurnStatus::Free => TurnStatus::Free,
        TurnStatus::NoTurn => TurnStatus::Free,
        _ => TurnStatus::Available,
    }
}

} // verus!
