use vstd::prelude::*;

use crate::applicable::CmdResult;
use crate::component::description::{self, described, Description};
use crate::component::entity_type::{self, classified, EntityType};
use crate::component::name::{self, named, Name};
use crate::model::entity::{created, created_named, qry};
use crate::registry::{self, deregistered, entity_id, registered, PubId};
use crate::state::State;

verus! {

/// Adds an entity under the external identifier `pub_id`.
pub fn add(state: State, pub_id: PubId) -> (r: CmdResult<State>)
    requires
        state.wf(),
    ensures
        registered(state, pub_id, r),
{
    registry::register(state, pub_id)
}

/// Removes the entity `pub_id` from the registry.
pub fn remove(state: State, pub_id: PubId) -> (r: CmdResult<State>)
    requires
        state.wf(),
    ensures
        deregistered(state, entity_id(state, pub_id), r),
{
    let id = qry::id(&state, pub_id);
    registry::deregister(state, id)
}

/// Classifies the entity `entity_pub_id`.
pub fn classify(state: State, entity_pub_id: PubId, entity_type: EntityType) -> (r: CmdResult<State>)
    requires
        state.wf(),
    ensures
        classified(state, entity_pub_id, entity_type, r),
        r matches Ok(s) ==> s.wf(),
{
    entity_type::cmd::classify(state, entity_pub_id, entity_type)
}

/// Names the entity `entity_pub_id`.
pub fn name(state: State, entity_pub_id: PubId, new_name: &Name) -> (r: CmdResult<State>)
    requires
        state.wf(),
    ensures
        named(state, entity_pub_id, new_name@, r),
        r matches Ok(s) ==> s.wf(),
{
    name::cmd::set(state, entity_pub_id, new_name)
}

/// Describes the entity `entity_pub_id`.
pub fn describe(state: State, entity_pub_id: PubId, text: &Description) -> (r: CmdResult<State>)
    requires
        state.wf(),
    ensures
        described(state, entity_pub_id, text@, r),
        r matches Ok(s) ==> s.wf(),
{
    description::cmd::set(state, entity_pub_id, text)
}

/// Adds `pub_id` as an entity classified `entity_type`.
pub fn create(state: State, pub_id: PubId, entity_type: EntityType) -> (r: CmdResult<State>)
    requires
        state.wf(),
        entity_type != EntityType::Missing,
    ensures
        created(state, pub_id, entity_type, r),
        r matches Ok(s) ==> s.wf(),
{
    let added = match registry::register(state, pub_id) {
        Ok(s) => s,
        Err(e) => return Err(e),
    };
    classify(added, pub_id, entity_type)
}

/// Adds `pub_id` as an entity classified `entity_type` and named `starting_name`.
pub fn create_named(state: State, pub_id: PubId, entity_type: EntityType, starting_name: &Name) -> (r:
    CmdResult<State>)
    requires
        state.wf(),
        entity_type != EntityType::Missing,
    ensures
        created_named(state, pub_id, entity_type, starting_name@, r),
        r matches Ok(s) ==> s.wf(),
{
    let classified = match create(state, pub_id, entity_type) {
        Ok(s) => s,
        Err(e) => return Err(e),
    };
    name(classified, pub_id, starting_name)
}

} // verus!
