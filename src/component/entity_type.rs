//! The classification of an entity.
use vstd::prelude::*;

use crate::applicable::{CmdErr, CmdResult};
use crate::component::component::ComponentValue;
use crate::registry::{entity_id, is_registered, PubId};
use crate::state::State;

pub mod cmd;
pub mod grd;
pub mod qry;

verus! {

#[derive(Debug, Clone, Copy, PartialEq, Eq, Structural)]
pub enum EntityType {
    Player,
    Scenario,
    Character,
    Item,
    Location,
    Effect,
    Generic,
    Missing,
}

impl View for EntityType {
    type V = EntityType;

    open spec fn view(&self) -> EntityType {
        *self
    }
}

impl ComponentValue for EntityType {
    fn duplicate(&self) -> (r: EntityType) {
        *self
    }
}

impl EntityType {
    /// The name of the classification.
    pub fn label(self) -> (r: String)
        ensures
            r@ == label_of(self),
    {
        match self {
            EntityType::Player => "Player".to_string(),
            EntityType::Scenario => "Scenario".to_string(),
            EntityType::Character => "Character".to_string(),
            EntityType::Item => "Item".to_string(),
            EntityType::Location => "Location".to_string(),
            EntityType::Effect => "Effect".to_string(),
            EntityType::Generic => "Generic".to_string(),
            EntityType::Missing => "Missing".to_string(),
        }
    }
}

/// The name of the classification `t`.
pub open spec fn label_of(t: EntityType) -> Seq<char> {
    match t {
        EntityType::Player => "Player"@,
        EntityType::Scenario => "Scenario"@,
        EntityType::Character => "Character"@,
        EntityType::Item => "Item"@,
        EntityType::Location => "Location"@,
        EntityType::Effect => "Effect"@,
        EntityType::Generic => "Generic"@,
        EntityType::Missing => "Missing"@,
    }
}

/// The classification of `pub_id` in `s`: `Missing` when it is not
/// registered, `Generic` when it is registered but unclassified.
pub open spec fn kind_of(s: State, pub_id: PubId) -> EntityType {
    let id = entity_id(s, pub_id);
    if !s.registry.id_dict@.contains_key(id) || id == 0 {
        EntityType::Missing
    } else if s.entity_type@.contains_key(id) {
        s.entity_type@[id]
    } else {
        EntityType::Generic
    }
}

/// `r` is what classifying `pub_id` of `before` as `t` gives: refused for
/// `Missing`, for an unregistered entity, and for one already classified.
pub open spec fn classified(before: State, pub_id: PubId, t: EntityType, r: CmdResult<State>) -> bool {
    let id = entity_id(before, pub_id);
    match r {
        Ok(s) => {
            &&& t != EntityType::Missing
            &&& is_registered(before, pub_id)
            &&& !before.entity_type@.contains_key(id)
            &&& s == (State { entity_type: s.entity_type, ..before })
            &&& s.entity_type@ == before.entity_type@.insert(id, t)
        },
        Err(e) => {
            ||| t == EntityType::Missing && e == CmdErr::PreconditionFailed
            ||| t != EntityType::Missing && !is_registered(before, pub_id) && e == CmdErr::NotFound
            ||| t != EntityType::Missing && is_registered(before, pub_id)
                && before.entity_type@.contains_key(id) && e == CmdErr::AlreadyExists
        },
    }
}

} // verus!
