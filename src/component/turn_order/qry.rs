use vstd::prelude::*;

use crate::component::entity_type::{self, kind_of, EntityType};
use crate::component::turn_order::{external_of, order_of, pub_sequence, supports_turns};
use crate::model::entity;
use crate::registry::PubId;
use crate::state::State;

verus! {

/// Whether the scenario's turn order holds the turn of `entity_pub_id`.
pub fn contains(state: &State, scenario_pub_id: PubId, entity_pub_id: PubId) -> (r: bool)
    ensures
        r == pub_sequence(*state, scenario_pub_id).contains(entity_pub_id),
{
    let order = sequence(state, scenario_pub_id);
    let mut i: usize = 0;
    while i < order.len()
        invariant
            i <= order@.len(),
            order@ == pub_sequence(*state, scenario_pub_id),
            forall|j: int| 0 <= j < i ==> order@[j] != entity_pub_id,
        decreases order@.len() - i,
    {
        if order[i] == entity_pub_id {
            proof {
                assert(order@[i as int] == entity_pub_id);
            }
            return true;
        }
        i += 1;
    }
    false
}

/// The scenario's turn order, as external identifiers.
pub fn sequence(state: &State, scenario_pub_id: PubId) -> (r: Vec<PubId>)
    ensures
        r@ == pub_sequence(*state, scenario_pub_id),
{
    let id = entity::qry::id(state, scenario_pub_id);
    let ids = match state.turn_order.get(id) {
        Some(ids) => ids,
        None => Vec::new(),
    };
    let ghost target = pub_sequence(*state, scenario_pub_id);
    assert(ids@ == order_of(*state, scenario_pub_id));
    let mut out: Vec<PubId> = Vec::new();
    let mut i: usize = 0;
    while i < ids.len()
        invariant
            i <= ids@.len(),
            ids@ == order_of(*state, scenario_pub_id),
            target == pub_sequence(*state, scenario_pub_id),
            target.len() == ids@.len(),
            out@ == target.subrange(0, i as int),
        decreases ids@.len() - i,
    {
        let pub_id = match state.registry.pub_id(&ids[i]) {
            Some(p) => p,
            None => 0,
        };
        proof {
            assert(pub_id == external_of(*state, ids@[i as int]));
            assert(target[i as int] == pub_id);
        }
        out.push(pub_id);
        proof {
            assert(out@ =~= target.subrange(0, i as int + 1));
        }
        i += 1;
    }
    proof {
        assert(target.subrange(0, i as int) =~= target);
    }
    out
}

/// Whether entities like `entity_pub_id` can take turns: characters, items,
/// locations, effects and generic entities can; players, scenarios and
/// missing entities cannot.
pub fn is_supported_turn_order_type(state: &State, entity_pub_id: PubId) -> (r: bool)
    ensures
        r == supports_turns(kind_of(*state, entity_pub_id)),
{
    match entity_type::qry::get(state, entity_pub_id) {
        EntityType::Player => false,
        EntityType::Scenario => false,
        EntityType::Missing => false,
        EntityType::Character => true,
        EntityType::Item => true,
        EntityType::Location => true,
        EntityType::Effect => true,
        EntityType::Generic => true,
    }
}

} // verus!
