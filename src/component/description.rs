//! The description of an entity.
use vstd::prelude::*;

use crate::applicable::{Applicable, CmdErr, CmdResult};
use crate::registry::{entity_id, is_registered, PubId};
use crate::state::State;

pub mod cmd;
pub mod qry;

verus! {

pub type Description = str;

/// The description stored for `pub_id` in `s`, empty when there is none.
pub open spec fn description_of(s: State, pub_id: PubId) -> Seq<char> {
    let id = entity_id(s, pub_id);
    if s.description@.contains_key(id) {
        s.description@[id]@
    } else {
        Seq::empty()
    }
}

/// `r` is what describing `pub_id` of `before` as `text` gives: refused for an
/// unregistered entity, else the description is stored, whatever was there.
pub open spec fn described(before: State, pub_id: PubId, text: Seq<char>, r: CmdResult<State>) -> bool {
    let id = entity_id(before, pub_id);
    match r {
        Ok(s) => {
            &&& is_registered(before, pub_id)
            &&& s == (State { description: s.description, ..before })
            &&& s.description@ == before.description@.insert(id, s.description@[id])
            &&& s.description@[id]@ == text
        },
        Err(e) => !is_registered(before, pub_id) && e == CmdErr::NotFound,
    }
}

/// The description commands, as values.
pub enum Cmd {
    Assign(PubId, String),
}

impl Applicable for Cmd {
    open spec fn accepts(&self, state: State) -> bool {
        true
    }

    open spec fn produces(&self, before: State, after: CmdResult<State>) -> bool {
        match *self {
            Cmd::Assign(pub_id, description) => described(before, pub_id, description@, after),
        }
    }

    fn apply_to(self, state: State) -> (r: CmdResult<State>) {
        match self {
            Cmd::Assign(pub_id, description) => cmd::set(state, pub_id, description.as_str()),
        }
    }

    fn apply_to_default(self) -> (r: CmdResult<State>) {
        let ghost command = self;
        let state = State::default();
        let r = self.apply_to(state);
        proof {
            assert(state.is_initial() && state.wf() && command.produces(state, r));
        }
        r
    }
}

} // verus!
