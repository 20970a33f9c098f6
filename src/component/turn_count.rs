//! How many turns an entity has taken.
use vstd::prelude::*;

use crate::applicable::{CmdErr, CmdResult};
use crate::registry::{entity_id, is_registered, PubId};
use crate::state::State;

pub mod cmd;
pub mod qry;

verus! {

pub type TurnCount = u8;

/// The turn count of `pub_id` in `s`, 0 when none is stored.
pub open spec fn count_of(s: State, pub_id: PubId) -> TurnCount {
    let id = entity_id(s, pub_id);
    if s.turn_count@.contains_key(id) {
        s.turn_count@[id]
    } else {
        0
    }
}

/// `r` is what counting one more turn for `pub_id` of `before` gives: refused
/// for an unregistered entity and for a count at its largest value.
pub open spec fn counted(before: State, pub_id: PubId, r: CmdResult<State>) -> bool {
    let id = entity_id(before, pub_id);
    let current = count_of(before, pub_id);
    match r {
        Ok(s) => {
            &&& is_registered(before, pub_id)
            &&& current < TurnCount::MAX
            &&& s == (State { turn_count: s.turn_count, ..before })
            &&& s.turn_count@ == before.turn_count@.insert(id, (current + 1) as TurnCount)
        },
        Err(e) => (!is_registered(before, pub_id) && e == CmdErr::NotFound) || (is_registered(
            before,
            pub_id,
        ) && current == TurnCount::MAX && e == CmdErr::OutOfRange),
    }
}

/// `r` is what clearing the turn count of `pub_id` of `before` gives:
/// refused when none is stored.
pub open spec fn count_reset(before: State, pub_id: PubId, r: CmdResult<State>) -> bool {
    let id = entity_id(before, pub_id);
    match r {
        Ok(s) => {
            &&& before.turn_count@.contains_key(id)
            &&& s == (State { turn_count: s.turn_count, ..before })
            &&& s.turn_count@ == before.turn_count@.remove(id)
        },
        Err(e) => !before.turn_count@.contains_key(id) && e == CmdErr::NotFound,
    }
}

} // verus!
