//! Characters: entities classified `Character`, with a name and at most one
//! player.
use vstd::prelude::*;

use crate::applicable::{Applicable, CmdErr, CmdResult};
use crate::component::entity_type::{kind_of, EntityType};
use crate::component::name::named;
use crate::model::entity::created_named;
use crate::model::player::PlayerId;
use crate::registry::{deregistered, entity_id, PubId};
use crate::state::State;
use crate::structure::hierarchy::{children_freed, parent_removed, parent_set};

pub mod cmd;
pub mod qry;

verus! {

pub type CharacterId = PubId;

/// `r` is what assigning the player `player_pub_id` to the character
/// `character_pub_id` of `before` gives.
pub open spec fn player_assigned(
    before: State,
    character_pub_id: PubId,
    player_pub_id: PubId,
    r: CmdResult<State>,
) -> bool {
    let c = entity_id(before, character_pub_id);
    let p = entity_id(before, player_pub_id);
    let kinds = kind_of(before, character_pub_id) == EntityType::Character && kind_of(
        before,
        player_pub_id,
    ) == EntityType::Player;
    match r {
        Ok(s) => {
            &&& kinds
            &&& before.character_player.can_set_parent(c, p)
            &&& s == (State { character_player: s.character_player, ..before })
            &&& parent_set(before.character_player, s.character_player, c, p)
        },
        Err(e) => (!kinds && e == CmdErr::PreconditionFailed) || (kinds
            && !before.character_player.can_set_parent(c, p)),
    }
}

/// `r` is what detaching the character `character_pub_id` of `before` from
/// its player gives.
pub open spec fn player_unassigned(before: State, character_pub_id: PubId, r: CmdResult<State>) -> bool {
    let c = entity_id(before, character_pub_id);
    let kind = kind_of(before, character_pub_id) == EntityType::Character;
    match r {
        Ok(s) => {
            &&& kind
            &&& before.character_player.parents().contains_key(c)
            &&& s == (State { character_player: s.character_player, ..before })
            &&& parent_removed(before.character_player, s.character_player, c)
        },
        Err(e) => (!kind && e == CmdErr::PreconditionFailed) || (kind
            && !before.character_player.parents().contains_key(c) && e == CmdErr::NotFound),
    }
}

/// `r` is what detaching every character of the player `player_pub_id` of
/// `before` gives.
pub open spec fn player_released(before: State, player_pub_id: PubId, r: CmdResult<State>) -> bool {
    let p = entity_id(before, player_pub_id);
    let kind = kind_of(before, player_pub_id) == EntityType::Player;
    match r {
        Ok(s) => {
            &&& kind
            &&& s == (State { character_player: s.character_player, ..before })
            &&& children_freed(before.character_player, s.character_player, p)
        },
        Err(e) => !kind && e == CmdErr::PreconditionFailed,
    }
}

/// `r` is what removing the character `character_pub_id` from `before`
/// gives: a character is first detached from its player, then the entity
/// is deregistered.
pub open spec fn character_removed(before: State, character_pub_id: PubId, r: CmdResult<State>) -> bool {
    let c = entity_id(before, character_pub_id);
    if kind_of(before, character_pub_id) == EntityType::Character
        && before.character_player.parents().contains_key(c) {
        exists|mid: State|
            #![trigger parent_removed(before.character_player, mid.character_player, c)]
            mid == (State { character_player: mid.character_player, ..before }) && mid.wf()
                && parent_removed(before.character_player, mid.character_player, c)
                && deregistered(mid, c, r)
    } else {
        deregistered(before, c, r)
    }
}

/// The character commands, as values.
#[derive(Debug, PartialEq, Eq)]
pub enum Character {
    Add(CharacterId, String),
    Remove(CharacterId),
    Rename(CharacterId, String),
    AssignPlayer(CharacterId, PlayerId),
    RemovePlayer(CharacterId),
    RemovePlayerFromAll(PlayerId),
}

impl Applicable for Character {
    open spec fn accepts(&self, state: State) -> bool {
        true
    }

    open spec fn produces(&self, before: State, after: CmdResult<State>) -> bool {
        match *self {
            Character::Add(pub_id, name) => created_named(
                before,
                pub_id,
                EntityType::Character,
                name@,
                after,
            ),
            Character::Remove(pub_id) => character_removed(before, pub_id, after),
            Character::Rename(pub_id, name) => named(before, pub_id, name@, after),
            Character::AssignPlayer(pub_id, player_pub_id) => player_assigned(
                before,
                pub_id,
                player_pub_id,
                after,
            ),
            Character::RemovePlayer(pub_id) => player_unassigned(before, pub_id, after),
            Character::RemovePlayerFromAll(pub_id) => player_released(before, pub_id, after),
        }
    }

    fn apply_to(self, state: State) -> (r: CmdResult<State>) {
        match self {
            Character::Add(pub_id, name) => cmd::add(state, pub_id, name.as_str()),
            Character::Remove(pub_id) => cmd::remove(state, pub_id),
            Character::Rename(pub_id, name) => cmd::rename(state, pub_id, name.as_str()),
            Character::AssignPlayer(pub_id, player_pub_id) => cmd::assign_player(
                state,
                pub_id,
                player_pub_id,
            ),
            Character::RemovePlayer(pub_id) => cmd::remove_player(state, pub_id),
            Character::RemovePlayerFromAll(pub_id) => cmd::remove_player_form_all(state, pub_id),
        }
    }

    fn apply_to_default(self) -> (r: CmdResult<State>) {
        let ghost command = self;
        let state = State::default();
        let r = self.apply_to(state);
        proof {
            assert(state.is_initial() && state.wf() && command.produces(state, r));
        }
        r
    }
}

} // verus!
