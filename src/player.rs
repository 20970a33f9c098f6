//! Players of the event-driven store, numbered from 0.
use std::collections::HashMap;
use vstd::prelude::*;

use crate::applicable::CmdErr;
use crate::event;

verus! {

broadcast use vstd::std_specs::hash::group_hash_axioms;

pub type Id = usize;

pub type Name = String;

pub type Players = HashMap<Id, Name>;

#[derive(Debug, Clone, PartialEq, Eq)]
pub struct State {
    pub next_player_id: Id,
    pub players: Players,
}

impl Default for State {
    fn default() -> (r: Self)
        ensures
            r.next_player_id == 0,
            r.players@ == Map::<Id, Name>::empty(),
    {
        Self { next_player_id: 0, players: HashMap::new() }
    }
}

/// `r` is what adding a player named `name` to `before` gives: refused for an
/// empty name, else stored under the next number.
pub open spec fn adds(before: event::State, name: Seq<char>, r: event::ActionResult) -> bool {
    let id = before.player.next_player_id;
    match r {
        Ok(after) => {
            &&& name.len() > 0
            &&& id < usize::MAX
            &&& after == (event::State { player: after.player, ..before })
            &&& after.player.next_player_id == id + 1
            &&& after.player.players@ == before.player.players@.insert(id, after.player.players@[id])
            &&& after.player.players@[id]@ == name
        },
        Err(e) => (name.len() == 0 && e == CmdErr::PreconditionFailed) || (name.len() > 0 && id
            == usize::MAX && e == CmdErr::OutOfRange),
    }
}

/// `r` is what renaming player `id` of `before` to `name` gives: refused for a
/// missing player or an unchanged name.
pub open spec fn renames(before: event::State, id: Id, name: Seq<char>, r: event::ActionResult) -> bool {
    let players = before.player.players@;
    match r {
        Ok(after) => {
            &&& players.contains_key(id)
            &&& players[id]@ != name
            &&& after == (event::State { player: after.player, ..before })
            &&& after.player.next_player_id == before.player.next_player_id
            &&& after.player.players@ == players.insert(id, after.player.players@[id])
            &&& after.player.players@[id]@ == name
        },
        Err(e) => (!players.contains_key(id) && e == CmdErr::NotFound) || (players.contains_key(id)
            && players[id]@ == name && e == CmdErr::PreconditionFailed),
    }
}

/// `r` is what removing player `id` from `before` gives.
pub open spec fn removes(before: event::State, id: Id, r: event::ActionResult) -> bool {
    match r {
        Ok(after) => {
            &&& before.player.players@.contains_key(id)
            &&& after == (event::State { player: after.player, ..before })
            &&& after.player.next_player_id == before.player.next_player_id
            &&& after.player.players@ == before.player.players@.remove(id)
        },
        Err(e) => !before.player.players@.contains_key(id) && e == CmdErr::NotFound,
    }
}

pub fn add(state: event::State, name: &Name) -> (r: event::ActionResult)
    ensures
        adds(state, name@, r),
{
    if name.as_str().is_empty() {
        return Err(CmdErr::PreconditionFailed);
    }
    let player_id = state.player.next_player_id;
    if player_id == usize::MAX {
        return Err(CmdErr::OutOfRange);
    }
    let mut players = state.player.players;
    players.insert(player_id, name.clone());
    Ok(event::State { player: State { next_player_id: player_id + 1, players }, ..state })
}

pub fn rename(state: event::State, player_id: Id, name: &Name) -> (r: event::ActionResult)
    ensures
        renames(state, player_id, name@, r),
{
    match state.player.players.get(&player_id) {
        None => return Err(CmdErr::NotFound),
        Some(current) => {
            if *current == *name {
                return Err(CmdErr::PreconditionFailed);
            }
        },
    }
    let mut players = state.player.players;
    players.insert(player_id, name.clone());
    Ok(event::State { player: State { players, ..state.player }, ..state })
}

pub fn remove(state: event::State, player_id: Id) -> (r: event::ActionResult)
    ensures
        removes(state, player_id, r),
{
    let mut players = state.player.players;
    match players.remove(&player_id) {
        None => Err(CmdErr::NotFound),
        Some(_) => Ok(event::State { player: State { players, ..state.player }, ..state }),
    }
}

} // verus!
