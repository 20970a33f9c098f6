//! Sequenced play: the turns of a scenario, and whether the scenario is in
//! free play or in sequenced play. A scenario with no recorded status is in
//! free play.
use vstd::prelude::*;

use crate::applicable::{Applicable, CmdErr, CmdResult};
use crate::component::entity_type::{kind_of, EntityType};
use crate::component::turn_order::{pub_sequence, turn_appended, turn_dropped};
use crate::component::turn_state::{status_of, status_recorded, TurnStatus};
use crate::model::scenario::{entity_captured, holder_of};
use crate::registry::{entity_id, is_registered, PubId};
use crate::state::State;

pub mod cmd;
pub mod qry;

verus! {

/// Whether the scenario is in free play.
pub open spec fn in_free_play(s: State, scenario_pub_id: PubId) -> bool {
    status_of(s, scenario_pub_id) is Free || status_of(s, scenario_pub_id) is NoTurn
}

/// The status a new turn in the scenario starts with.
pub open spec fn initial_status(s: State, scenario_pub_id: PubId) -> TurnStatus {
    if in_free_play(s, scenario_pub_id) {
        TurnStatus::Free
    } else {
        TurnStatus::Available
    }
}

/// The internal identifiers of the scenario's turns.
pub open spec fn turn_ids(s: State, scenario_pub_id: PubId) -> Seq<usize> {
    pub_sequence(s, scenario_pub_id).map_values(|p: PubId| entity_id(s, p))
}

/// `s` is `before` with the scenario given `mode` and each of its turns
/// given `status`.
pub open spec fn play_mode_set(
    before: State,
    s: State,
    scenario_pub_id: PubId,
    mode: TurnStatus,
    status: TurnStatus,
) -> bool {
    let turns = turn_ids(before, scenario_pub_id);
    let sc = entity_id(before, scenario_pub_id);
    &&& s == (State { turn_state: s.turn_state, ..before })
    &&& forall|id: usize| #[trigger]
        s.turn_state@.contains_key(id) == (before.turn_state@.contains_key(id) || id == sc
            || turns.contains(id))
    &&& forall|id: usize| #[trigger]
        s.turn_state@.contains_key(id) ==> s.turn_state@[id] == if turns.contains(id) {
            status
        } else if id == sc {
            mode
        } else {
            before.turn_state@[id]
        }
}

/// Every turn of the scenario belongs to a registered entity.
pub open spec fn turns_registered(s: State, scenario_pub_id: PubId) -> bool {
    forall|i: int|
        0 <= i < pub_sequence(s, scenario_pub_id).len() ==> is_registered(
            s,
            #[trigger] pub_sequence(s, scenario_pub_id)[i],
        )
}

/// `r` is what switching the scenario between free and sequenced play gives:
/// `to_sequenced` tells the direction.
pub open spec fn play_switched(before: State, scenario_pub_id: PubId, to_sequenced: bool, r: CmdResult<
    State,
>) -> bool {
    let allowed = is_registered(before, scenario_pub_id) && in_free_play(before, scenario_pub_id)
        == to_sequenced && turns_registered(before, scenario_pub_id);
    let mode = if to_sequenced {
        TurnStatus::Active
    } else {
        TurnStatus::Free
    };
    let status = if to_sequenced {
        TurnStatus::Available
    } else {
        TurnStatus::Free
    };
    match r {
        Ok(s) => allowed && play_mode_set(before, s, scenario_pub_id, mode, status),
        Err(_) => !allowed,
    }
}

/// `r` is what giving the entity `entity_pub_id` a turn in the scenario
/// gives: it joins the scenario, its turn is appended, and it starts with
/// the scenario's initial status; each step may refuse.
pub open spec fn turn_started(before: State, scenario_pub_id: PubId, entity_pub_id: PubId, r: CmdResult<
    State,
>) -> bool {
    let allowed = kind_of(before, scenario_pub_id) == EntityType::Scenario && kind_of(
        before,
        entity_pub_id,
    ) != EntityType::Scenario;
    let init = initial_status(before, scenario_pub_id);
    if !allowed {
        r == Err::<State, CmdErr>(CmdErr::PreconditionFailed)
    } else {
        match r {
            Ok(s) => exists|s1: State, s2: State|
                #![trigger entity_captured(before, scenario_pub_id, entity_pub_id, Ok(s1)), status_recorded(s2, entity_pub_id, init, Ok(s))]
                entity_captured(before, scenario_pub_id, entity_pub_id, Ok(s1)) && turn_appended(
                    s1,
                    scenario_pub_id,
                    entity_pub_id,
                    Ok(s2),
                ) && status_recorded(s2, entity_pub_id, init, Ok(s)),
            Err(e) => entity_captured(before, scenario_pub_id, entity_pub_id, Err(e)) || exists|
                s1: State,
            |
                #[trigger] entity_captured(before, scenario_pub_id, entity_pub_id, Ok(s1)) && (
                turn_appended(s1, scenario_pub_id, entity_pub_id, Err(e)) || exists|s2: State|
                    #[trigger] turn_appended(s1, scenario_pub_id, entity_pub_id, Ok(s2))
                        && status_recorded(s2, entity_pub_id, init, Err(e))),
        }
    }
}

/// `r` is what taking the turn of `entity_pub_id` out of its scenario gives:
/// its turn leaves the scenario's order and its status is cleared.
pub open spec fn turn_ended(before: State, entity_pub_id: PubId, r: CmdResult<State>) -> bool {
    match holder_of(before, entity_pub_id) {
        None => r == Err::<State, CmdErr>(CmdErr::NotFound),
        Some(sc) => match r {
            Ok(s) => exists|s1: State|
                turn_dropped(before, sc, entity_pub_id, Ok(s1)) && #[trigger] status_recorded(
                    s1,
                    entity_pub_id,
                    TurnStatus::NoTurn,
                    Ok(s),
                ),
            Err(e) => turn_dropped(before, sc, entity_pub_id, Err(e)) || exists|s1: State|
                #[trigger] turn_dropped(before, sc, entity_pub_id, Ok(s1)) && status_recorded(
                    s1,
                    entity_pub_id,
                    TurnStatus::NoTurn,
                    Err(e),
                ),
        },
    }
}

/// The sequenced play commands, as values.
#[derive(Debug, PartialEq, Eq)]
pub enum SeqPlay {
    AddTurn(PubId, PubId),
    RemoveTurn(PubId),
    Enable(PubId),
    Disable(PubId),
}

impl Applicable for SeqPlay {
    open spec fn accepts(&self, state: State) -> bool {
        true
    }

    open spec fn produces(&self, before: State, after: CmdResult<State>) -> bool {
        match *self {
            SeqPlay::AddTurn(scenario_id, entity_id) => turn_started(
                before,
                scenario_id,
                entity_id,
                after,
            ),
            SeqPlay::RemoveTurn(entity_id) => turn_ended(before, entity_id, after),
            SeqPlay::Enable(scenario_id) => play_switched(before, scenario_id, true, after),
            SeqPlay::Disable(scenario_id) => play_switched(before, scenario_id, false, after),
        }
    }

    fn apply_to(self, state: State) -> (r: CmdResult<State>) {
        match self {
            SeqPlay::AddTurn(scenario_id, entity_id) => cmd::add_turn(state, scenario_id, entity_id),
            SeqPlay::RemoveTurn(entity_id) => cmd::remove_turn(state, entity_id),
            SeqPlay::Enable(scenario_id) => cmd::enable(state, scenario_id),
            SeqPlay::Disable(scenario_id) => cmd::disable(state, scenario_id),
        }
    }

    fn apply_to_default(self) -> (r: CmdResult<State>) {
        let ghost command = self;
        let state = State::default();
        let r = self.apply_to(state);
        proof {
            assert(state.is_initial() && state.wf() && command.produces(state, r));
        }
        r
    }
}

} // verus!
