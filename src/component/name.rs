//! The name of an entity.
use vstd::prelude::*;

use crate::applicable::{Applicable, CmdErr, CmdResult};
use crate::registry::{entity_id, is_registered, PubId};
use crate::state::State;

pub mod cmd;
pub mod qry;

verus! {

pub type Name = str;

/// The name stored for `pub_id` in `s`, empty when there is none.
pub open spec fn name_of(s: State, pub_id: PubId) -> Seq<char> {
    let id = entity_id(s, pub_id);
    if s.name@.contains_key(id) {
        s.name@[id]@
    } else {
        Seq::empty()
    }
}

/// `r` is what naming `pub_id` of `before` `name` gives: refused for an
/// unregistered entity, else the name is stored, whatever was there.
pub open spec fn named(before: State, pub_id: PubId, name: Seq<char>, r: CmdResult<State>) -> bool {
    let id = entity_id(before, pub_id);
    match r {
        Ok(s) => {
            &&& is_registered(before, pub_id)
            &&& s == (State { name: s.name, ..before })
            &&& s.name@ == before.name@.insert(id, s.name@[id])
            &&& s.name@[id]@ == name
        },
        Err(e) => !is_registered(before, pub_id) && e == CmdErr::NotFound,
    }
}

/// The name commands, as values.
pub enum Cmd {
    Assign(PubId, String),
}

impl Applicable for Cmd {
    open spec fn accepts(&self, state: State) -> bool {
        true
    }

    open spec fn produces(&self, before: State, after: CmdResult<State>) -> bool {
        match *self {
            Cmd::Assign(pub_id, name) => named(before, pub_id, name@, after),
        }
    }

    fn apply_to(self, state: State) -> (r: CmdResult<State>) {
        match self {
            Cmd::Assign(pub_id, name) => cmd::set(state, pub_id, name.as_str()),
        }
    }

    fn apply_to_default(self) -> (r: CmdResult<State>) {
        let ghost command = self;
        let state = State::default();
        let r = self.apply_to(state);
        proof {
            assert(state.is_initial() && state.wf() && command.produces(state, r));
        }
        r
    }
}

} // verus!
