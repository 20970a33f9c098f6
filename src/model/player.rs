//! Players: entities classified `Player`, with a name.
use vstd::prelude::*;

use crate::applicable::{Applicable, CmdResult};
use crate::component::entity_type::EntityType;
use crate::component::name::named;
use crate::model::entity::created_named;
use crate::registry::{deregistered, entity_id, PubId};
use crate::state::State;

pub mod cmd;
pub mod qry;

verus! {

pub type PlayerId = PubId;

/// The player commands, as values.
#[derive(Debug, PartialEq, Eq)]
pub enum Player {
    Add(PlayerId, String),
    Remove(PlayerId),
    Rename(PlayerId, String),
}

impl Applicable for Player {
    open spec fn accepts(&self, state: State) -> bool {
        true
    }

    open spec fn produces(&self, before: State, after: CmdResult<State>) -> bool {
        match *self {
            Player::Add(player_id, name) => created_named(
                before,
                player_id,
                EntityType::Player,
                name@,
                after,
            ),
            Player::Remove(player_id) => deregistered(before, entity_id(before, player_id), after),
            Player::Rename(player_id, name) => named(before, player_id, name@, after),
        }
    }

    fn apply_to(self, state: State) -> (r: CmdResult<State>) {
        match self {
            Player::Add(player_id, starting_name) => cmd::add(
                state,
                player_id,
                starting_name.as_str(),
            ),
            Player::Remove(player_id) => cmd::remove(state, player_id),
            Player::Rename(player_id, new_name) => cmd::rename(state, player_id, new_name.as_str()),
        }
    }

    fn apply_to_default(self) -> (r: CmdResult<State>) {
        let ghost command = self;
        let state = State::default();
        let r = self.apply_to(state);
        proof {
            assert(state.is_initial() && state.wf() && command.produces(state, r));
        }
        r
    }
}

} // verus!
