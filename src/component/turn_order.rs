//! The order of turns within each scenario: a sequence of entities, kept
//! free of repeats.
use vstd::prelude::*;

use crate::applicable::{CmdErr, CmdResult};
use crate::component::entity_type::{kind_of, EntityType};
use crate::registry::{entity_id, lookup_id, Id, PubId};
use crate::state::State;

pub mod cmd;
pub mod qry;

verus! {

pub type TurnOrder = Vec<Id>;

/// Where a turn is moved to.
#[derive(Debug, Clone, Copy, PartialEq, Eq, Structural)]
pub enum TurnPosition {
    Start,
    Before(PubId),
    After(PubId),
    End,
}

/// Whether entities of classification `t` can take turns.
pub open spec fn supports_turns(t: EntityType) -> bool {
    !(t is Player || t is Scenario || t is Missing)
}

/// The turn order of the scenario `scenario_pub_id` in `s`, as internal
/// identifiers; empty when none is stored.
pub open spec fn order_of(s: State, scenario_pub_id: PubId) -> Seq<Id> {
    let sc = entity_id(s, scenario_pub_id);
    if s.turn_order@.contains_key(sc) {
        s.turn_order@[sc]@
    } else {
        Seq::empty()
    }
}

/// The external identifier of `id` in `s`, or 0.
pub open spec fn external_of(s: State, id: Id) -> PubId {
    if s.registry.id_dict@.contains_key(id) {
        s.registry.id_dict@[id]
    } else {
        0
    }
}

/// The turn order of the scenario, as external identifiers.
pub open spec fn pub_sequence(s: State, scenario_pub_id: PubId) -> Seq<PubId> {
    order_of(s, scenario_pub_id).map_values(|id: Id| external_of(s, id))
}

/// Whether turns of `entity_pub_id` may be ordered in the scenario.
pub open spec fn turn_target(s: State, scenario_pub_id: PubId, entity_pub_id: PubId) -> bool {
    kind_of(s, scenario_pub_id) == EntityType::Scenario && supports_turns(kind_of(s, entity_pub_id))
}

/// `s` is `before` with the turn order of the scenario replaced by `order`.
pub open spec fn order_replaced(before: State, s: State, scenario_pub_id: PubId, order: Seq<Id>) -> bool {
    let sc = entity_id(before, scenario_pub_id);
    &&& s == (State { turn_order: s.turn_order, ..before })
    &&& s.turn_order@ == before.turn_order@.insert(sc, s.turn_order@[sc])
    &&& s.turn_order@[sc]@ == order
}

/// `r` is what appending the turn of `entity_pub_id` to the scenario's order
/// gives.
pub open spec fn turn_appended(
    before: State,
    scenario_pub_id: PubId,
    entity_pub_id: PubId,
    r: CmdResult<State>,
) -> bool {
    let order = order_of(before, scenario_pub_id);
    let e = entity_id(before, entity_pub_id);
    match r {
        Ok(s) => turn_target(before, scenario_pub_id, entity_pub_id) && !order.contains(e)
            && order_replaced(before, s, scenario_pub_id, order.push(e)),
        Err(err) => (!turn_target(before, scenario_pub_id, entity_pub_id) && err
            == CmdErr::PreconditionFailed) || (turn_target(before, scenario_pub_id, entity_pub_id)
            && order.contains(e) && err == CmdErr::AlreadyExists),
    }
}

/// `r` is what taking the turn of `entity_pub_id` out of the scenario's order
/// gives.
pub open spec fn turn_dropped(
    before: State,
    scenario_pub_id: PubId,
    entity_pub_id: PubId,
    r: CmdResult<State>,
) -> bool {
    let order = order_of(before, scenario_pub_id);
    let e = entity_id(before, entity_pub_id);
    match r {
        Ok(s) => turn_target(before, scenario_pub_id, entity_pub_id) && order.contains(e)
            && order_replaced(before, s, scenario_pub_id, order.remove(order.index_of(e))),
        Err(err) => (!turn_target(before, scenario_pub_id, entity_pub_id) && err
            == CmdErr::PreconditionFailed) || (turn_target(before, scenario_pub_id, entity_pub_id)
            && !order.contains(e) && err == CmdErr::NotFound),
    }
}

/// The index at which a turn lands in `rest`, the order without it.
pub open spec fn landing(rest: Seq<Id>, position: TurnPosition, anchor: Id) -> int {
    match position {
        TurnPosition::Start => 0,
        TurnPosition::End => rest.len() as int,
        TurnPosition::Before(_) => rest.index_of(anchor),
        TurnPosition::After(_) => rest.index_of(anchor) + 1,
    }
}

/// The external identifier a position refers to, if any.
pub open spec fn anchor_of(position: TurnPosition) -> PubId {
    match position {
        TurnPosition::Before(a) => a,
        TurnPosition::After(a) => a,
        _ => 0,
    }
}

/// Whether the move of the turn of `entity_pub_id` to `position` may go
/// ahead in a scenario whose order has more than one turn.
pub open spec fn move_allowed(
    before: State,
    scenario_pub_id: PubId,
    entity_pub_id: PubId,
    position: TurnPosition,
) -> bool {
    let order = order_of(before, scenario_pub_id);
    let e = entity_id(before, entity_pub_id);
    let rest = order.remove(order.index_of(e));
    &&& turn_target(before, scenario_pub_id, entity_pub_id)
    &&& order.contains(e)
    &&& (position is Before || position is After) ==> anchor_of(position) != entity_pub_id
        && rest.contains(entity_id(before, anchor_of(position)))
}

/// `r` is what moving the turn of `entity_pub_id` to `position` in the
/// scenario's order gives. An order of one turn is left as it is.
pub open spec fn turn_repositioned(
    before: State,
    scenario_pub_id: PubId,
    entity_pub_id: PubId,
    position: TurnPosition,
    r: CmdResult<State>,
) -> bool {
    let order = order_of(before, scenario_pub_id);
    let e = entity_id(before, entity_pub_id);
    let rest = order.remove(order.index_of(e));
    let lone = turn_target(before, scenario_pub_id, entity_pub_id) && order.contains(e)
        && order.len() == 1;
    match r {
        Ok(s) => if lone {
            s == before
        } else {
            move_allowed(before, scenario_pub_id, entity_pub_id, position) && order_replaced(
                before,
                s,
                scenario_pub_id,
                rest.insert(landing(rest, position, entity_id(before, anchor_of(position))), e),
            )
        },
        Err(_) => !lone && !move_allowed(before, scenario_pub_id, entity_pub_id, position),
    }
}

/// `r` is what replacing the scenario's order by the entities `turn_order`
/// gives: refused unless the scenario and every entity are registered and no
/// entity repeats.
pub open spec fn order_set(
    before: State,
    scenario_pub_id: PubId,
    turn_order: Seq<PubId>,
    r: CmdResult<State>,
) -> bool {
    let ids = turn_order.map_values(|p: PubId| lookup_id(before.registry.pub_dict@, p));
    let ok = before.registry.pub_dict@.contains_key(scenario_pub_id) && (forall|i: int|
        0 <= i < turn_order.len() ==> before.registry.pub_dict@.contains_key(
            #[trigger] turn_order[i],
        )) && turn_order.no_duplicates();
    match r {
        Ok(s) => ok && order_replaced(before, s, scenario_pub_id, ids),
        Err(_) => !ok,
    }
}

pub(crate) proof fn lemma_insert_fresh(s: Seq<Id>, k: int, x: Id)
    requires
        s.no_duplicates(),
        !s.contains(x),
        0 <= k <= s.len(),
    ensures
        s.insert(k, x).no_duplicates(),
        forall|y: Id| #[trigger] s.insert(k, x).contains(y) == (s.contains(y) || y == x),
{
    s.insert_ensures(k, x);
    let t = s.insert(k, x);
    assert forall|a: int, b: int| 0 <= a < t.len() && 0 <= b < t.len() && a != b implies t[a]
        != t[b] by {
        let pa = if a < k { a } else if a == k { -1 } else { a - 1 };
        let pb = if b < k { b } else if b == k { -1 } else { b - 1 };
        if pa >= 0 {
            assert(t[a] == s[pa]);
        }
        if pb >= 0 {
            assert(t[b] == s[pb]);
        }
    }
    assert forall|y: Id| #[trigger] t.contains(y) == (s.contains(y) || y == x) by {
        if t.contains(y) {
            let j = choose|j: int| 0 <= j < t.len() && t[j] == y;
            if j < k {
                assert(s[j] == y);
            } else if j > k {
                assert(s[j - 1] == y);
            }
        }
        if s.contains(y) {
            let j = choose|j: int| 0 <= j < s.len() && s[j] == y;
            if j < k {
                assert(t[j] == y);
            } else {
                assert(t[j + 1] == y);
            }
        }
        if y == x {
            assert(t[k] == y);
        }
    }
}

} // verus!
