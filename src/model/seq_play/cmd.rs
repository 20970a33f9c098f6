use vstd::prelude::*;

use crate::applicable::{CmdErr, CmdResult};
use crate::component::turn_order;
use crate::component::turn_state::{self, TurnStatus};
use crate::model::entity;
use crate::model::scenario;
use crate::model::seq_play::{
    in_free_play, play_mode_set, play_switched, qry, turn_ended, turn_ids, turn_started,
};
use crate::registry::{entity_id, PubId};
use crate::state::State;

verus! {

/// Gives the entity `entity_id` a turn in the scenario `scenario_id`: the
/// entity joins the scenario, its turn is appended to the scenario's order,
/// and it starts free in free play and available in sequenced play.
pub fn add_turn(state: State, scenario_id: PubId, entity_id: PubId) -> (r: CmdResult<State>)
    requires
        state.wf(),
    ensures
        turn_started(state, scenario_id, entity_id, r),
        r matches Ok(s) ==> s.wf(),
{
    if !scenario::qry::present(&state, scenario_id) {
        return Err(CmdErr::PreconditionFailed);
    }
    if scenario::qry::present(&state, entity_id) {
        return Err(CmdErr::PreconditionFailed);
    }
    let turn_state = qry::new_turn_init_state(&state, scenario_id);
    let ghost before = state;
    let joined = match scenario::cmd::assign_entity(state, scenario_id, entity_id) {
        Ok(s) => s,
        Err(e) => return Err(e),
    };
    let ordered = match turn_order::cmd::add_turn(joined, scenario_id, entity_id) {
        Ok(s) => s,
        Err(e) => {
            proof {
                assert(crate::model::scenario::entity_captured(before, scenario_id, entity_id, Ok(joined)));
            }
            return Err(e);
        },
    };
    let ghost mid = ordered;
    let r = turn_state::cmd::set(ordered, entity_id, turn_state);
    proof {
        assert(crate::model::scenario::entity_captured(before, scenario_id, entity_id, Ok(joined)));
        assert(turn_order::turn_appended(joined, scenario_id, entity_id, Ok(mid)));
    }
    r
}

/// Takes the turn of `entity_id` out of its scenario and clears its status.
pub fn remove_turn(state: State, entity_id: PubId) -> (r: CmdResult<State>)
    requires
        state.wf(),
    ensures
        turn_ended(state, entity_id, r),
        r matches Ok(s) ==> s.wf(),
{
    let scenario_id = match scenario::qry::find_character(&state, entity_id) {
        Some(id) => id,
        None => return Err(CmdErr::NotFound),
    };
    let ghost before = state;
    let dropped = match turn_order::cmd::remove_turn(state, scenario_id, entity_id) {
        Ok(s) => s,
        Err(e) => return Err(e),
    };
    let r = turn_state::cmd::set(dropped, entity_id, TurnStatus::NoTurn);
    proof {
        assert(turn_order::turn_dropped(before, scenario_id, entity_id, Ok(dropped)));
    }
    r
}

/// Gives the scenario `mode` and each of its turns `status`, once the
/// scenario is known to be in the play mode the switch starts from.
fn switch_play(state: State, scenario_id: PubId, to_sequenced: bool) -> (r: CmdResult<State>)
    requires
        state.wf(),
    ensures
        play_switched(state, scenario_id, to_sequenced, r),
        r matches Ok(s) ==> s.wf(),
{
    if !entity::qry::present(&state, scenario_id) {
        return Err(CmdErr::NotFound);
    }
    let current = turn_state::qry::get(&state, scenario_id);
    let free = current == TurnStatus::Free || current == TurnStatus::NoTurn;
    if free != to_sequenced {
        return Err(CmdErr::InvalidTransition);
    }
    let turns = turn_order::qry::sequence(&state, scenario_id);
    let mut i: usize = 0;
    while i < turns.len()
        invariant
            state.wf(),
            i <= turns@.len(),
            turns@ == turn_order::pub_sequence(state, scenario_id),
            forall|j: int|
                0 <= j < i ==> crate::registry::is_registered(state, #[trigger] turns@[j]),
        decreases turns@.len() - i,
    {
        if !entity::qry::present(&state, turns[i]) {
            return Err(CmdErr::NotFound);
        }
        i += 1;
    }
    let (mode, status) = if to_sequenced {
        (TurnStatus::Active, TurnStatus::Available)
    } else {
        (TurnStatus::Free, TurnStatus::Free)
    };
    assert(status != TurnStatus::NoTurn && mode != TurnStatus::NoTurn);
    let ghost before = state;
    let ghost ids = turn_ids(before, scenario_id);
    let ghost sc = entity_id(before, scenario_id);
    let mut current_state = match turn_state::cmd::set(state, scenario_id, mode) {
        Ok(s) => s,
        Err(e) => return Err(e),
    };
    let mut i: usize = 0;
    while i < turns.len()
        invariant
            current_state.wf(),
            status != TurnStatus::NoTurn,
            mode == (if to_sequenced {
                TurnStatus::Active
            } else {
                TurnStatus::Free
            }),
            status == (if to_sequenced {
                TurnStatus::Available
            } else {
                TurnStatus::Free
            }),
            i <= turns@.len(),
            turns@ == turn_order::pub_sequence(before, scenario_id),
            ids == turn_ids(before, scenario_id),
            ids.len() == turns@.len(),
            sc == entity_id(before, scenario_id),
            forall|j: int|
                0 <= j < turns@.len() ==> crate::registry::is_registered(before, #[trigger] turns@[j]),
            current_state == (State { turn_state: current_state.turn_state, ..before }),
            forall|id: usize| #[trigger]
                current_state.turn_state@.contains_key(id) == (before.turn_state@.contains_key(id)
                    || id == sc || ids.subrange(0, i as int).contains(id)),
            forall|id: usize| #[trigger]
                current_state.turn_state@.contains_key(id) ==> current_state.turn_state@[id]
                    == if ids.subrange(0, i as int).contains(id) {
                    status
                } else if id == sc {
                    mode
                } else {
                    before.turn_state@[id]
                },
        decreases turns@.len() - i,
    {
        let ghost prev = current_state;
        let p = turns[i];
        proof {
            assert(crate::registry::is_registered(before, turns@[i as int]));
            assert(ids[i as int] == entity_id(before, p));
        }
        current_state = match turn_state::cmd::set(current_state, p, status) {
            Ok(s) => s,
            Err(e) => return Err(e),
        };
        proof {
            assert(status != TurnStatus::NoTurn);
            assert(entity_id(prev, p) == ids[i as int]);
            assert(current_state.turn_state@ == prev.turn_state@.insert(ids[i as int], status));
            let longer = ids.subrange(0, i as int + 1);
            let shorter = ids.subrange(0, i as int);
            assert forall|id: usize| #[trigger] longer.contains(id) == (shorter.contains(id) || id
                == ids[i as int]) by {
                if longer.contains(id) {
                    let k = choose|k: int| 0 <= k < longer.len() && #[trigger] longer[k] == id;
                    if k < i {
                        assert(shorter[k] == id);
                    }
                }
                if shorter.contains(id) {
                    let k = choose|k: int| 0 <= k < shorter.len() && #[trigger] shorter[k] == id;
                    assert(longer[k] == id);
                }
                if id == ids[i as int] {
                    assert(longer[i as int] == id);
                }
            }
        }
        i += 1;
    }
    proof {
        assert(ids.subrange(0, i as int) =~= ids);
        assert(play_mode_set(before, current_state, scenario_id, mode, status));
        assert(in_free_play(before, scenario_id) == to_sequenced);
    }
    Ok(current_state)
}

/// Enters sequenced play: the scenario becomes active and each of its turns
/// available. Refused unless the scenario is in free play.
pub fn enable(state: State, scenario_id: PubId) -> (r: CmdResult<State>)
    requires
        state.wf(),
    ensures
        play_switched(state, scenario_id, true, r),
        r matches Ok(s) ==> s.wf(),
{
    switch_play(state, scenario_id, true)
}

/// Returns to free play: the scenario and each of its turns become free.
/// Refused when the scenario is in free play already.
pub fn disable(state: State, scenario_id: PubId) -> (r: CmdResult<State>)
    requires
        state.wf(),
    ensures
        play_switched(state, scenario_id, false, r),
        r matches Ok(s) ==> s.wf(),
{
    switch_play(state, scenario_id, false)
}

} // verus!
