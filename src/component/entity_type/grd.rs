use vstd::prelude::*;

use crate::applicable::{CmdErr, CmdResult};
use crate::component::entity_type::{kind_of, EntityType};
use crate::component::entity_type::qry;
use crate::registry::PubId;
use crate::state::State;

verus! {

/// Succeeds exactly when `pub_id` is classified as `required_entity_type`.
pub fn must_be(state: &State, pub_id: PubId, required_entity_type: EntityType) -> (r: CmdResult<()>)
    ensures
        r is Ok == (kind_of(*state, pub_id) == required_entity_type),
        r is Err ==> r == Err::<(), CmdErr>(CmdErr::PreconditionFailed),
{
    let et = qry::get(state, pub_id);
    if et != required_entity_type {
        return Err(CmdErr::PreconditionFailed);
    }
    Ok(())
}

/// Succeeds exactly when `pub_id` is not classified as
/// `disallowed_entity_type`.
pub fn must_not_be(state: &State, pub_id: PubId, disallowed_entity_type: EntityType) -> (r: CmdResult<()>)
    ensures
        r is Ok == (kind_of(*state, pub_id) != disallowed_entity_type),
        r is Err ==> r == Err::<(), CmdErr>(CmdErr::PreconditionFailed),
{
    if must_be(state, pub_id, disallowed_entity_type).is_ok() {
        return Err(CmdErr::PreconditionFailed);
    }
    Ok(())
}

} // verus!
