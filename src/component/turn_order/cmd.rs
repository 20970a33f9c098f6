use vstd::prelude::*;

use crate::applicable::{CmdErr, CmdResult};
use crate::component::turn_order::{
    lemma_insert_fresh, order_set, qry, turn_appended, turn_dropped, turn_repositioned,
    TurnOrder, TurnPosition,
};
use crate::model::entity;
use crate::model::scenario;
use crate::registry::{lookup_id, PubId};
use crate::state::State;
use crate::structure::hierarchy::index_in;
use crate::subsys::round::lemma_removed;

verus! {

/// The stored turn order of the scenario with internal identifier `id`.
fn stored_order(state: &State, id: usize) -> (r: TurnOrder)
    requires
        state.wf(),
    ensures
        r@ == if state.turn_order@.contains_key(id) {
            state.turn_order@[id]@
        } else {
            Seq::empty()
        },
        r@.no_duplicates(),
{
    match state.turn_order.get(id) {
        Some(v) => v,
        None => Vec::new(),
    }
}

/// Appends the turn of `turn_entity_pub_id` to the scenario's turn order.
pub fn add_turn(state: State, scenario_pub_id: PubId, turn_entity_pub_id: PubId) -> (r: CmdResult<
    State,
>)
    requires
        state.wf(),
    ensures
        turn_appended(state, scenario_pub_id, turn_entity_pub_id, r),
        r matches Ok(s) ==> s.wf(),
{
    let mut state = state;
    if !scenario::qry::present(&state, scenario_pub_id) {
        return Err(CmdErr::PreconditionFailed);
    }
    if !qry::is_supported_turn_order_type(&state, turn_entity_pub_id) {
        return Err(CmdErr::PreconditionFailed);
    }
    let scenario_id = entity::qry::id(&state, scenario_pub_id);
    let mut sequence = stored_order(&state, scenario_id);
    let entity_id = entity::qry::id(&state, turn_entity_pub_id);
    if index_in(&sequence, entity_id).is_some() {
        return Err(CmdErr::AlreadyExists);
    }
    proof {
        lemma_insert_fresh(sequence@, sequence@.len() as int, entity_id);
        assert(sequence@.insert(sequence@.len() as int, entity_id) =~= sequence@.push(entity_id));
    }
    sequence.push(entity_id);
    let _ = state.turn_order.update(scenario_id, sequence);
    Ok(state)
}

/// Takes the turn of `turn_entity_pub_id` out of the scenario's turn order.
pub fn remove_turn(state: State, scenario_pub_id: PubId, turn_entity_pub_id: PubId) -> (r:
    CmdResult<State>)
    requires
        state.wf(),
    ensures
        turn_dropped(state, scenario_pub_id, turn_entity_pub_id, r),
        r matches Ok(s) ==> s.wf(),
{
    let mut state = state;
    if !scenario::qry::present(&state, scenario_pub_id) {
        return Err(CmdErr::PreconditionFailed);
    }
    if !qry::is_supported_turn_order_type(&state, turn_entity_pub_id) {
        return Err(CmdErr::PreconditionFailed);
    }
    let scenario_id = entity::qry::id(&state, scenario_pub_id);
    let mut sequence = stored_order(&state, scenario_id);
    let entity_id = entity::qry::id(&state, turn_entity_pub_id);
    let index = match index_in(&sequence, entity_id) {
        Some(i) => i,
        None => return Err(CmdErr::NotFound),
    };
    proof {
        lemma_removed(sequence@, index as int);
    }
    sequence.remove(index);
    let _ = state.turn_order.update(scenario_id, sequence);
    Ok(state)
}

/// Moves the turn of `turn_entity_pub_id` within the scenario's turn order.
pub fn move_turn(
    state: State,
    scenario_pub_id: PubId,
    turn_entity_pub_id: PubId,
    position: TurnPosition,
) -> (r: CmdResult<State>)
    requires
        state.wf(),
    ensures
        turn_repositioned(state, scenario_pub_id, turn_entity_pub_id, position, r),
        r matches Ok(s) ==> s.wf(),
{
    let mut state = state;
    if !scenario::qry::present(&state, scenario_pub_id) {
        return Err(CmdErr::PreconditionFailed);
    }
    if !qry::is_supported_turn_order_type(&state, turn_entity_pub_id) {
        return Err(CmdErr::PreconditionFailed);
    }
    let scenario_id = entity::qry::id(&state, scenario_pub_id);
    let mut sequence = stored_order(&state, scenario_id);
    let entity_id = entity::qry::id(&state, turn_entity_pub_id);
    let index = match index_in(&sequence, entity_id) {
        Some(i) => i,
        None => return Err(CmdErr::NotFound),
    };
    if sequence.len() == 1 {
        return Ok(state);
    }
    proof {
        lemma_removed(sequence@, index as int);
    }
    sequence.remove(index);
    let ghost rest = sequence@;
    let landing: usize = match position {
        TurnPosition::Start => 0,
        TurnPosition::End => sequence.len(),
        TurnPosition::Before(anchor) => {
            if anchor == turn_entity_pub_id {
                return Err(CmdErr::PreconditionFailed);
            }
            let anchor_id = entity::qry::id(&state, anchor);
            match index_in(&sequence, anchor_id) {
                Some(j) => j,
                None => return Err(CmdErr::NotFound),
            }
        },
        TurnPosition::After(anchor) => {
            if anchor == turn_entity_pub_id {
                return Err(CmdErr::PreconditionFailed);
            }
            let anchor_id = entity::qry::id(&state, anchor);
            match index_in(&sequence, anchor_id) {
                Some(j) => j + 1,
                None => return Err(CmdErr::NotFound),
            }
        },
    };
    proof {
        lemma_insert_fresh(rest, landing as int, entity_id);
    }
    sequence.insert(landing, entity_id);
    let _ = state.turn_order.update(scenario_id, sequence);
    Ok(state)
}

/// Replaces the scenario's turn order by the entities of `turn_order`, in
/// that order.
pub fn set(state: State, scenario_pub_id: PubId, turn_order: Vec<PubId>) -> (r: CmdResult<State>)
    requires
        state.wf(),
    ensures
        order_set(state, scenario_pub_id, turn_order@, r),
        r matches Ok(s) ==> s.wf(),
{
    let scenario_id = entity::qry::id(&state, scenario_pub_id);
    if scenario_id == 0 {
        proof {
            if state.registry.pub_dict@.contains_key(scenario_pub_id) {
                assert(state.registry.id_dict@.contains_key(
                    state.registry.pub_dict@[scenario_pub_id],
                ));
            }
        }
        return Err(CmdErr::NotFound);
    }
    let ghost pubs = state.registry.pub_dict@;
    let ghost target = turn_order@.map_values(|p: PubId| lookup_id(pubs, p));
    let mut ids: Vec<usize> = Vec::new();
    let mut i: usize = 0;
    while i < turn_order.len()
        invariant
            state.wf(),
            pubs == state.registry.pub_dict@,
            target == turn_order@.map_values(|p: PubId| lookup_id(pubs, p)),
            i <= turn_order@.len(),
            ids@ == target.subrange(0, i as int),
            ids@.no_duplicates(),
            forall|j: int| 0 <= j < i ==> pubs.contains_key(#[trigger] turn_order@[j]),
            turn_order@.subrange(0, i as int).no_duplicates(),
        decreases turn_order@.len() - i,
    {
        let p = turn_order[i];
        let id = entity::qry::id(&state, p);
        if id == 0 {
            proof {
                if pubs.contains_key(p) {
                    assert(state.registry.id_dict@.contains_key(pubs[p]));
                }
                assert(turn_order@[i as int] == p);
                assert(!pubs.contains_key(turn_order@[i as int]));
            }
            return Err(CmdErr::NotFound);
        }
        match index_in(&ids, id) {
            Some(j) => {
                proof {
                    assert(ids@[j as int] == target[j as int]);
                    assert(turn_order@[j as int] == p);
                    assert(!turn_order@.no_duplicates());
                }
                return Err(CmdErr::AlreadyExists);
            },
            None => {},
        }
        proof {
            lemma_insert_fresh(ids@, ids@.len() as int, id);
            assert(ids@.insert(ids@.len() as int, id) =~= ids@.push(id));
            let seen = turn_order@.subrange(0, i as int + 1);
            assert forall|a: int, b: int|
                0 <= a < seen.len() && 0 <= b < seen.len() && a != b implies seen[a] != seen[b] by {
                if a < i && b < i {
                    assert(turn_order@.subrange(0, i as int)[a] == seen[a]);
                    assert(turn_order@.subrange(0, i as int)[b] == seen[b]);
                } else if a == i {
                    assert(ids@[b] == target[b]);
                } else {
                    assert(ids@[a] == target[a]);
                }
            }
        }
        ids.push(id);
        proof {
            assert(ids@ =~= target.subrange(0, i as int + 1));
        }
        i += 1;
    }
    proof {
        assert(target.subrange(0, i as int) =~= target);
        assert(turn_order@.subrange(0, i as int) =~= turn_order@);
    }
    let mut state = state;
    let _ = state.turn_order.update(scenario_id, ids);
    Ok(state)
}

} // verus!
