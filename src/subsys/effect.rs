//! The store of effect entities, and the actions that change it.
use vstd::prelude::*;

use crate::applicable::CmdErr;

pub mod entity;

use entity::{adds, removes, Collection, Ref};

verus! {

pub type ActionError = CmdErr;

pub type ActionResult = Result<State, ActionError>;

#[derive(Debug, Clone, PartialEq, Eq)]
pub struct State {
    pub entities: Collection,
}

impl Default for State {
    fn default() -> (r: Self)
        ensures
            r.entities.next_id == 0,
            r.entities.items@ == Map::<entity::Id, Ref>::empty(),
    {
        Self { entities: Collection::default() }
    }
}

#[derive(Debug, Clone, PartialEq, Eq)]
pub enum Action {
    Noop,
    Init,
    AddEntity(Ref),
    RemoveEntity(entity::Id),
}

/// `r` is what applying `a` to `s` gives.
pub open spec fn action_effect(a: Action, s: State, r: ActionResult) -> bool {
    match a {
        Action::Noop => r == Ok::<State, ActionError>(s),
        Action::Init => r matches Ok(t) && t.entities.next_id == 0
            && t.entities.items@ == Map::<entity::Id, Ref>::empty(),
        Action::AddEntity(entity_ref) => adds(s, entity_ref, r),
        Action::RemoveEntity(id) => removes(s, id, r),
    }
}

/// `r` follows from applying `a` to `mid`, unless `mid` is already a refusal.
pub open spec fn step(a: Action, mid: ActionResult, r: ActionResult) -> bool {
    match mid {
        Ok(t) => action_effect(a, t, r),
        Err(e) => r == Err::<State, ActionError>(e),
    }
}

/// `trace` lists the results of applying `v` one after another to `s`.
pub open spec fn is_trace(v: Seq<Action>, s: State, trace: Seq<ActionResult>) -> bool {
    &&& trace.len() == v.len() + 1
    &&& trace[0] == Ok::<State, ActionError>(s)
    &&& forall|i: int| 0 <= i < v.len() ==> #[trigger] step(v[i], trace[i], trace[i + 1])
}

/// `r` is what applying `v` one after another to `s` gives, stopping at the
/// first refusal.
pub open spec fn runs(v: Seq<Action>, s: State, r: ActionResult) -> bool {
    exists|trace: Seq<ActionResult>| #[trigger] is_trace(v, s, trace) && trace.last() == r
}

impl Action {
    pub fn apply(self, state: State) -> (r: ActionResult)
        ensures
            action_effect(self, state, r),
    {
        match self {
            Action::Noop => Ok(state),
            Action::Init => Ok(State::default()),
            Action::AddEntity(entity_ref) => entity::add(state, entity_ref),
            Action::RemoveEntity(id) => entity::remove(state, id),
        }
    }

    /// Applies `actions` in order, stopping at the first refusal.
    pub fn apply_all(actions: Vec<Action>, state: State) -> (r: ActionResult)
        ensures
            runs(actions@, state, r),
    {
        let ghost all = actions@;
        assert(all.len() == actions.len());
        let mut rest = actions;
        let mut current: ActionResult = Ok(state);
        let mut i: usize = 0;
        let ghost mut trace: Seq<ActionResult> = seq![current];
        while rest.len() > 0
            invariant
                i <= all.len(),
                all.len() <= usize::MAX,
                rest@.len() + i == all.len(),
                rest@ == all.subrange(i as int, all.len() as int),
                is_trace(all.subrange(0, i as int), state, trace),
                trace.last() == current,
            decreases rest@.len(),
        {
            let action = rest.remove(0);
            proof {
                assert(action == all[i as int]);
            }
            current = match current {
                Ok(s) => action.apply(s),
                Err(e) => Err(e),
            };
            proof {
                let prefix = all.subrange(0, i as int + 1);
                let next = trace.push(current);
                assert(step(prefix[i as int], next[i as int], next[i as int + 1]));
                assert forall|j: int| 0 <= j < prefix.len() implies #[trigger] step(
                    prefix[j],
                    next[j],
                    next[j + 1],
                ) by {
                    if j < i {
                        assert(prefix[j] == all.subrange(0, i as int)[j]);
                        assert(step(all.subrange(0, i as int)[j], trace[j], trace[j + 1]));
                    }
                }
                trace = next;
            }
            i += 1;
        }
        proof {
            assert(all.subrange(0, i as int) =~= all);
            assert(is_trace(all, state, trace));
        }
        current
    }
}

} // verus!
