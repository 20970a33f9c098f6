//! The scenario of the event-driven store: just its name.
use vstd::prelude::*;

use crate::applicable::CmdErr;
use crate::event;

verus! {

pub type Name = String;

#[derive(Debug, Clone, PartialEq, Eq)]
pub struct State {
    pub name: Name,
}

impl Default for State {
    fn default() -> (r: Self)
        ensures
            r.name@ == "Unnamed Scenario"@,
    {
        Self { name: "Unnamed Scenario".to_string() }
    }
}

/// `r` is what renaming the scenario of `before` to `name` gives: refused for
/// an empty or unchanged name.
pub open spec fn renames(before: event::State, name: Seq<char>, r: event::ActionResult) -> bool {
    match r {
        Ok(after) => {
            &&& name.len() > 0
            &&& before.scenario.name@ != name
            &&& after == (event::State { scenario: after.scenario, ..before })
            &&& after.scenario.name@ == name
        },
        Err(e) => (name.len() == 0 || before.scenario.name@ == name) && e
            == CmdErr::PreconditionFailed,
    }
}

pub fn rename(state: event::State, name: &Name) -> (r: event::ActionResult)
    ensures
        renames(state, name@, r),
{
    if name.as_str().is_empty() {
        return Err(CmdErr::PreconditionFailed);
    }
    if state.scenario.name == *name {
        return Err(CmdErr::PreconditionFailed);
    }
    Ok(event::State { scenario: State { name: name.clone() }, ..state })
}

} // verus!
