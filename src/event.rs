//! The event-driven store: a state of scenario, players, entities, the round
//! of play and effects, and the actions that change it.
use vstd::prelude::*;

use crate::applicable::CmdErr;
use crate::effect;
use crate::entity;
use crate::player;
use crate::scenario;
use crate::subsys::round::{
    lemma_placed_before, lemma_relocated, round_advanced, slot_before, status_set, turn_added, turn_moved, turn_removed, turns_ordered,
    Initiative, Round, TurnStatus,
};

verus! {

#[derive(Debug, Clone, PartialEq, Eq)]
pub struct State {
    pub scenario: scenario::State,
    pub player: player::State,
    pub entity: entity::State,
    pub round: Round,
    pub effect: effect::State,
}

impl State {
    /// The round of play is consistent.
    pub open spec fn wf(&self) -> bool {
        self.round.wf()
    }

    /// Nothing has happened yet.
    pub open spec fn is_initial(&self) -> bool {
        &&& self.scenario.name@ == "Unnamed Scenario"@
        &&& self.player.next_player_id == 0
        &&& self.player.players@ == Map::<player::Id, player::Name>::empty()
        &&& self.entity.next_entity_id == 0
        &&& self.entity.entities@ == Map::<entity::Id, entity::Entity>::empty()
        &&& self.round.count == 0
        &&& self.round.sequence@ == Seq::<usize>::empty()
        &&& self.round.turn_states@ == Map::<usize, TurnStatus>::empty()
        &&& self.round.initiatives@ == Map::<usize, Initiative>::empty()
        &&& self.effect.next_effect_id == 0
        &&& self.effect.effects@ == Map::<effect::Id, effect::Effect>::empty()
    }
}

impl Default for State {
    fn default() -> (r: Self)
        ensures
            r.wf(),
            r.is_initial(),
    {
        Self {
            scenario: scenario::State::default(),
            player: player::State::default(),
            entity: entity::State::default(),
            round: Round::default(),
            effect: effect::State::default(),
        }
    }
}

pub type ActionError = CmdErr;

pub type ActionResult = Result<State, ActionError>;

#[derive(Debug, PartialEq, Eq)]
pub enum Action {
    Noop,
    Init,
    Proc(Vec<Action>),
    // Scenario
    RenameScenario(scenario::Name),
    // Player
    AddPlayer(player::Name),
    RenamePlayer(player::Id, player::Name),
    RemovePlayer(player::Id),
    // Entity
    AddEntity(entity::Name),
    RenameEntity(entity::Id, entity::Name),
    RemoveEntity(entity::Id),
    // Round
    AddTurn(entity::Id, Initiative),
    RemoveTurn(entity::Id),
    OrderTurnsByInitiative,
    UpdateTurn(entity::Id, TurnStatus),
    MoveTurn(entity::Id, i8),
    MoveTurnBefore(entity::Id, entity::Id),
    ResetTurn(entity::Id),
    ActivateTurn(entity::Id),
    InterruptTurn(entity::Id),
    ActivateDelayedTurn(entity::Id, entity::Id),
    ResumeTurn(entity::Id),
    CompleteTurn(entity::Id),
    SkipTurn(entity::Id),
    DelayTurn(entity::Id),
    TiggerDelayedTurn(entity::Id, entity::Id),
    NextRound,
}

/// `after` differs from `before` in its round alone, which stays consistent.
pub open spec fn round_only(before: State, after: State) -> bool {
    after == (State { round: after.round, ..before }) && after.round.wf()
}

/// `r` is what setting the status of the turn of `id` to `status` gives.
pub open spec fn sets_status(s: State, id: entity::Id, status: TurnStatus, r: ActionResult) -> bool {
    match r {
        Ok(t) => s.round.has_turn(id) && round_only(s, t) && status_set(s.round, t.round, id, status),
        Err(e) => !s.round.has_turn(id) && e == CmdErr::NotFound,
    }
}

/// `r` is what moving the turn of `id` to the index `to` gives, where `ok`
/// says whether the move is allowed.
pub open spec fn moves(s: State, id: entity::Id, to: int, ok: bool, r: ActionResult) -> bool {
    match r {
        Ok(t) => ok && round_only(s, t) && turn_moved(s.round, t.round, s.round.position(id), to),
        Err(_) => !ok,
    }
}

/// Whether the held turn of `id` can be triggered by the turn of `trigger`:
/// both have turns, the held turn is not already just before its trigger,
/// and it was held this round.
pub open spec fn trigger_allowed(round: Round, id: entity::Id, trigger: entity::Id) -> bool {
    &&& round.has_turn(id)
    &&& round.has_turn(trigger)
    &&& id != trigger
    &&& slot_before(round.position(id), round.position(trigger)) != round.position(id)
    &&& round.turn_states@[id] == TurnStatus::Held(0)
}

/// `r` is what applying the action `a` to `s` gives. A batch of actions is
/// described by `runs`; its own contract here says only that a resulting
/// state is consistent.
pub open spec fn action_effect(a: Action, s: State, r: ActionResult) -> bool {
    match a {
        Action::Noop => r == Ok::<State, ActionError>(s),
        Action::Init => r matches Ok(t) && t.is_initial() && t.wf(),
        Action::Proc(_) => r matches Ok(t) ==> t.wf(),
        Action::RenameScenario(name) => scenario::renames(s, name@, r),
        Action::AddPlayer(name) => player::adds(s, name@, r),
        Action::RenamePlayer(id, name) => player::renames(s, id, name@, r),
        Action::RemovePlayer(id) => player::removes(s, id, r),
        Action::AddEntity(name) => entity::adds(s, name@, r),
        Action::RenameEntity(id, name) => entity::renames(s, id, name@, r),
        Action::RemoveEntity(id) => entity::removes(s, id, r),
        Action::AddTurn(id, initiative) => match r {
            Ok(t) => !s.round.has_turn(id) && round_only(s, t) && turn_added(
                s.round,
                t.round,
                id,
                initiative,
            ),
            Err(e) => s.round.has_turn(id) && e == CmdErr::AlreadyExists,
        },
        Action::RemoveTurn(id) => match r {
            Ok(t) => s.round.has_turn(id) && round_only(s, t) && turn_removed(s.round, t.round, id),
            Err(e) => !s.round.has_turn(id) && e == CmdErr::NotFound,
        },
        Action::OrderTurnsByInitiative => match r {
            Ok(t) => s.round.sequence@.len() >= 2 && s.round.count == 0 && round_only(s, t)
                && turns_ordered(s.round, t.round),
            Err(e) => (s.round.sequence@.len() < 2 && e == CmdErr::PreconditionFailed) || (
            s.round.sequence@.len() >= 2 && s.round.count != 0 && e == CmdErr::InvalidTransition),
        },
        Action::UpdateTurn(id, status) => sets_status(s, id, status, r),
        Action::ResetTurn(id) => sets_status(s, id, TurnStatus::Available, r),
        Action::ActivateTurn(id) => sets_status(s, id, TurnStatus::Active, r),
        Action::InterruptTurn(id) => sets_status(s, id, TurnStatus::Paused, r),
        Action::ResumeTurn(id) => sets_status(s, id, TurnStatus::Active, r),
        Action::CompleteTurn(id) => sets_status(s, id, TurnStatus::Completed, r),
        Action::SkipTurn(id) => sets_status(s, id, TurnStatus::Skipped, r),
        Action::DelayTurn(id) => sets_status(s, id, TurnStatus::Held(0), r),
        Action::MoveTurn(id, offset) => moves(
            s,
            id,
            s.round.position(id) + offset,
            offset != 0 && s.round.has_turn(id) && 0 <= s.round.position(id) + offset
                < s.round.sequence@.len(),
            r,
        ),
        Action::MoveTurnBefore(id, anchor) => moves(
            s,
            id,
            slot_before(s.round.position(id), s.round.position(anchor)),
            s.round.has_turn(id) && s.round.has_turn(anchor) && slot_before(
                s.round.position(id),
                s.round.position(anchor),
            ) != s.round.position(id),
            r,
        ),
        Action::ActivateDelayedTurn(id, trigger) => match r {
            Ok(t) => s.round.has_turn(id) && s.round.has_turn(trigger)
                && s.round.activation_allowed(id, trigger) && round_only(s, t) && status_set(
                s.round,
                t.round,
                id,
                TurnStatus::Active,
            ),
            Err(_) => !(s.round.has_turn(id) && s.round.has_turn(trigger)
                && s.round.activation_allowed(id, trigger)),
        },
        Action::TiggerDelayedTurn(id, trigger) => match r {
            Ok(t) => trigger_allowed(s.round, id, trigger) && round_only(s, t) && exists|
                paused: Round,
                moved: Round,
            |
                status_set(s.round, paused, trigger, TurnStatus::Paused) && turn_moved(
                    paused,
                    moved,
                    paused.position(id),
                    slot_before(paused.position(id), paused.position(trigger)),
                ) && moved.wf() && moved.activation_allowed(id, trigger) && status_set(
                    moved,
                    t.round,
                    id,
                    TurnStatus::Active,
                ),
            Err(_) => !trigger_allowed(s.round, id, trigger),
        },
        Action::NextRound => match r {
            Ok(t) => s.round.sequence@.len() > 0 && s.round.round_closable() && s.round.count
                < usize::MAX && round_only(s, t) && round_advanced(s.round, t.round),
            Err(_) => !(s.round.sequence@.len() > 0 && s.round.round_closable() && s.round.count
                < usize::MAX),
        },
    }
}

/// `trace` lists the results of applying the actions `v` one after another
/// to `s`: it starts at `Ok(s)`, and a refusal is carried to the end.
pub open spec fn is_trace(v: Seq<Action>, s: State, trace: Seq<ActionResult>) -> bool {
    &&& trace.len() == v.len() + 1
    &&& trace[0] == Ok::<State, ActionError>(s)
    &&& forall|i: int| 0 <= i < v.len() ==> #[trigger] step(v[i], trace[i], trace[i + 1])
}

/// `r` is what applying the actions `v` one after another to `s` gives,
/// stopping at the first refusal.
pub open spec fn runs(v: Seq<Action>, s: State, r: ActionResult) -> bool {
    exists|trace: Seq<ActionResult>| #[trigger] is_trace(v, s, trace) && trace.last() == r
}

/// `r` follows from applying `a` to `mid`, unless `mid` is already a refusal.
pub open spec fn step(a: Action, mid: ActionResult, r: ActionResult) -> bool {
    match mid {
        Ok(t) => action_effect(a, t, r),
        Err(e) => r == Err::<State, ActionError>(e),
    }
}

impl Action {
    pub fn apply(self, state: State) -> (r: ActionResult)
        requires
            state.wf(),
        ensures
            action_effect(self, state, r),
            r matches Ok(t) ==> t.wf(),
        decreases self,
    {
        let mut state = state;
        match self {
            Action::Noop => Ok(state),
            Action::Init => Ok(State::default()),
            Action::Proc(actions) => Self::apply_all(actions, state),
            Action::RenameScenario(name) => scenario::rename(state, &name),
            Action::AddPlayer(name) => player::add(state, &name),
            Action::RenamePlayer(player_id, name) => player::rename(state, player_id, &name),
            Action::RemovePlayer(player_id) => player::remove(state, player_id),
            Action::AddEntity(name) => entity::add(state, &name),
            Action::RenameEntity(entity_id, name) => entity::rename(state, entity_id, &name),
            Action::RemoveEntity(entity_id) => entity::remove(state, entity_id),
            _ => Self::apply_round(self, state),
        }
    }

    /// Whether `self` acts on the round of play alone.
    pub open spec fn is_round_action(&self) -> bool {
        match *self {
            Action::Noop | Action::Init | Action::Proc(_) | Action::RenameScenario(_)
            | Action::AddPlayer(_) | Action::RenamePlayer(_, _) | Action::RemovePlayer(_)
            | Action::AddEntity(_) | Action::RenameEntity(_, _) | Action::RemoveEntity(_) => false,
            _ => true,
        }
    }

    fn apply_round(self, state: State) -> (r: ActionResult)
        requires
            state.wf(),
            self.is_round_action(),
        ensures
            action_effect(self, state, r),
            r matches Ok(t) ==> t.wf(),
    {
        let mut state = state;
        match self {
            Action::AddTurn(entity_id, initiative) => match state.round.add_turn(
                entity_id,
                initiative,
            ) {
                Ok(()) => Ok(state),
                Err(e) => Err(e),
            },
            Action::RemoveTurn(entity_id) => match state.round.remove_turn(entity_id) {
                Ok(()) => Ok(state),
                Err(e) => Err(e),
            },
            Action::OrderTurnsByInitiative => match state.round.order_turns_by_initiative() {
                Ok(()) => Ok(state),
                Err(e) => Err(e),
            },
            Action::MoveTurn(entity_id, offset) => match state.round.update_turn_order(
                entity_id,
                offset,
            ) {
                Ok(()) => Ok(state),
                Err(e) => Err(e),
            },
            Action::MoveTurnBefore(entity_id, before_entity_id) => match state.round.move_turn_before(
                entity_id,
                before_entity_id,
            ) {
                Ok(()) => Ok(state),
                Err(e) => Err(e),
            },
            Action::UpdateTurn(entity_id, status) => Self::set_status(state, entity_id, status),
            Action::ResetTurn(entity_id) => Self::set_status(state, entity_id, TurnStatus::Available),
            Action::InterruptTurn(entity_id) => Self::set_status(state, entity_id, TurnStatus::Paused),
            Action::ResumeTurn(entity_id) => Self::set_status(state, entity_id, TurnStatus::Active),
            Action::ActivateTurn(entity_id) => Self::set_status(state, entity_id, TurnStatus::Active),
            Action::CompleteTurn(entity_id) => Self::set_status(
                state,
                entity_id,
                TurnStatus::Completed,
            ),
            Action::SkipTurn(entity_id) => Self::set_status(state, entity_id, TurnStatus::Skipped),
            Action::DelayTurn(entity_id) => Self::set_status(state, entity_id, TurnStatus::Held(0)),
            Action::ActivateDelayedTurn(entity_id, triggering_entity_id) => match state.round.activate_delayed_turn(
                entity_id,
                triggering_entity_id,
            ) {
                Ok(()) => Ok(state),
                Err(e) => Err(e),
            },
            Action::TiggerDelayedTurn(entity_id, triggering_entity_id) => {
                let ghost start = state.round;
                match state.round.update_turn_state(triggering_entity_id, TurnStatus::Paused) {
                    Ok(()) => {},
                    Err(e) => return Err(e),
                }
                let ghost paused = state.round;
                match state.round.move_turn_before(entity_id, triggering_entity_id) {
                    Ok(()) => {},
                    Err(e) => return Err(e),
                }
                let ghost moved = state.round;
                proof {
                    assert(start.position(entity_id) == paused.position(entity_id));
                    assert(start.position(triggering_entity_id) == paused.position(
                        triggering_entity_id,
                    ));
                    let from = start.position(entity_id);
                    let anchor = start.position(triggering_entity_id);
                    assert(start.sequence@[from] == entity_id);
                    assert(start.sequence@[anchor] == triggering_entity_id);
                    if entity_id != triggering_entity_id {
                        lemma_placed_before(start.sequence@, from, anchor);
                        lemma_relocated(start.sequence@, from, slot_before(from, anchor));
                        assert(moved.position(entity_id) == slot_before(from, anchor));
                        assert(moved.position(triggering_entity_id) == slot_before(from, anchor)
                            + 1);
                        assert(moved.has_turn(entity_id));
                        assert(moved.has_turn(triggering_entity_id));
                    }
                }
                match state.round.activate_delayed_turn(entity_id, triggering_entity_id) {
                    Ok(()) => {},
                    Err(e) => return Err(e),
                }
                proof {
                    assert(status_set(start, paused, triggering_entity_id, TurnStatus::Paused));
                    assert(moved.wf());
                }
                Ok(state)
            },
            Action::NextRound => match state.round.next_round() {
                Ok(()) => Ok(state),
                Err(e) => Err(e),
            },
            _ => Err(CmdErr::PreconditionFailed),
        }
    }

    fn set_status(state: State, entity_id: entity::Id, status: TurnStatus) -> (r: ActionResult)
        requires
            state.wf(),
        ensures
            sets_status(state, entity_id, status, r),
            r matches Ok(t) ==> t.wf(),
    {
        let mut state = state;
        match state.round.update_turn_state(entity_id, status) {
            Ok(()) => Ok(state),
            Err(e) => Err(e),
        }
    }

    /// Applies `actions` in order, stopping at the first refusal.
    pub fn apply_all(actions: Vec<Action>, state: State) -> (r: ActionResult)
        requires
            state.wf(),
        ensures
            runs(actions@, state, r),
            r matches Ok(t) ==> t.wf(),
        decreases actions,
    {
        let ghost all = actions;
        let mut rest = actions;
        let mut current: ActionResult = Ok(state);
        let mut i: usize = 0;
        let ghost mut trace: Seq<ActionResult> = seq![current];
        while rest.len() > 0
            invariant
                all == actions,
                i <= all@.len(),
                rest@.len() + i == all.len(),
                rest@ == all@.subrange(i as int, all@.len() as int),
                is_trace(all@.subrange(0, i as int), state, trace),
                trace.last() == current,
                current matches Ok(t) ==> t.wf(),
            decreases rest@.len(),
        {
            let action = rest.remove(0);
            proof {
                assert(action == all@[i as int]);
                vstd::std_specs::vec::axiom_vec_index_decreases(all, i as int);
                assert(decreases_to!(all => action));
            }
            current = match current {
                Ok(s) => action.apply(s),
                Err(e) => Err(e),
            };
            proof {
                let prefix = all@.subrange(0, i as int + 1);
                let next = trace.push(current);
                assert(step(prefix[i as int], next[i as int], next[i as int + 1]));
                assert forall|j: int| 0 <= j < prefix.len() implies #[trigger] step(
                    prefix[j],
                    next[j],
                    next[j + 1],
                ) by {
                    if j < i {
                        assert(prefix[j] == all@.subrange(0, i as int)[j]);
                        assert(step(all@.subrange(0, i as int)[j], trace[j], trace[j + 1]));
                    }
                }
                trace = next;
            }
            i += 1;
        }
        proof {
            assert(all@.subrange(0, i as int) =~= all@);
            assert(is_trace(all@, state, trace));
        }
        current
    }
}

} // verus!
