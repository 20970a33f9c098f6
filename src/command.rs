//! The top-level command vocabulary, so that commands of every model can be
//! mixed in one batch.
use vstd::prelude::*;

use crate::applicable::{Applicable, CmdErr, CmdResult};
use crate::component::entity_type::EntityType;
use crate::component::name::named;
use crate::model::character::{character_removed, player_assigned, Character};
use crate::model::entity::created_named;
use crate::model::player::Player;
use crate::registry::{deregistered, entity_id, PubId};
use crate::state::State;

verus! {

#[derive(Debug, PartialEq, Eq)]
pub enum Cmd {
    Batch(Vec<Cmd>),
    Player(Player),
    Character(Character),
    // Player model
    AddPlayer(PubId, String),
    RenamePlayer(PubId, String),
    RemovePlayer(PubId),
    // Character model
    AddCharacter(PubId, String),
    AssignCharacterPlayer(PubId, PubId),
    RenameCharacter(PubId, String),
    RemoveCharacter(PubId),
}

/// `after` is what applying `c` to `before` gives. A batch is described by
/// `cmd_runs` through `Cmd::apply_all`; here it only promises a consistent
/// state.
pub open spec fn cmd_effect(c: Cmd, before: State, after: CmdResult<State>) -> bool {
    match c {
        Cmd::Batch(_) => after matches Ok(s) ==> s.wf(),
        Cmd::Player(cmd) => cmd.produces(before, after),
        Cmd::Character(cmd) => cmd.produces(before, after),
        Cmd::AddPlayer(pub_id, name) => created_named(
            before,
            pub_id,
            EntityType::Player,
            name@,
            after,
        ),
        Cmd::RenamePlayer(pub_id, name) => named(before, pub_id, name@, after),
        Cmd::RemovePlayer(pub_id) => deregistered(before, entity_id(before, pub_id), after),
        Cmd::AddCharacter(pub_id, name) => created_named(
            before,
            pub_id,
            EntityType::Character,
            name@,
            after,
        ),
        Cmd::AssignCharacterPlayer(c_pub_id, p_pub_id) => player_assigned(
            before,
            c_pub_id,
            p_pub_id,
            after,
        ),
        Cmd::RenameCharacter(pub_id, name) => named(before, pub_id, name@, after),
        Cmd::RemoveCharacter(pub_id) => character_removed(before, pub_id, after),
    }
}

/// `r` follows from applying `c` to `mid`, unless `mid` is already a refusal.
pub open spec fn cmd_step(c: Cmd, mid: CmdResult<State>, r: CmdResult<State>) -> bool {
    match mid {
        Ok(s) => cmd_effect(c, s, r),
        Err(e) => r == Err::<State, CmdErr>(e),
    }
}

/// `trace` lists the results of applying `cmds` one after another to `s`.
pub open spec fn cmd_trace(cmds: Seq<Cmd>, s: State, trace: Seq<CmdResult<State>>) -> bool {
    &&& trace.len() == cmds.len() + 1
    &&& trace[0] == Ok::<State, CmdErr>(s)
    &&& forall|i: int| 0 <= i < cmds.len() ==> #[trigger] cmd_step(cmds[i], trace[i], trace[i + 1])
}

/// `r` is what applying `cmds` one after another to `s` gives, stopping at
/// the first refusal.
pub open spec fn cmd_runs(cmds: Seq<Cmd>, s: State, r: CmdResult<State>) -> bool {
    exists|trace: Seq<CmdResult<State>>| #[trigger] cmd_trace(cmds, s, trace) && trace.last() == r
}

impl Applicable for Cmd {
    open spec fn accepts(&self, state: State) -> bool {
        true
    }

    open spec fn produces(&self, before: State, after: CmdResult<State>) -> bool {
        cmd_effect(*self, before, after)
    }

    fn apply_to(self, state: State) -> (r: CmdResult<State>) {
        self.run(state)
    }

    fn apply_to_default(self) -> (r: CmdResult<State>) {
        let ghost command = self;
        let state = State::default();
        let r = self.run(state);
        proof {
            assert(state.is_initial() && state.wf() && command.produces(state, r));
        }
        r
    }
}

impl Cmd {
    fn run(self, state: State) -> (r: CmdResult<State>)
        requires
            state.wf(),
        ensures
            cmd_effect(self, state, r),
            r matches Ok(s) ==> s.wf(),
        decreases self,
    {
        match self {
            Cmd::Batch(cmds) => Self::apply_all(cmds, state),
            Cmd::Player(cmd) => cmd.apply_to(state),
            Cmd::Character(cmd) => cmd.apply_to(state),
            Cmd::AddPlayer(pub_id, name) => Player::Add(pub_id, name).apply_to(state),
            Cmd::RenamePlayer(pub_id, name) => Player::Rename(pub_id, name).apply_to(state),
            Cmd::RemovePlayer(pub_id) => state.apply(Player::Remove(pub_id)),
            Cmd::AddCharacter(pub_id, name) => Character::Add(pub_id, name).apply_to(state),
            Cmd::AssignCharacterPlayer(c_pub_id, p_pub_id) => Character::AssignPlayer(
                c_pub_id,
                p_pub_id,
            ).apply_to(state),
            Cmd::RenameCharacter(pub_id, name) => Character::Rename(pub_id, name).apply_to(state),
            Cmd::RemoveCharacter(pub_id) => Character::Remove(pub_id).apply_to(state),
        }
    }

    /// Applies `cmds` in order, stopping at the first refusal.
    pub fn apply_all(cmds: Vec<Cmd>, state: State) -> (r: CmdResult<State>)
        requires
            state.wf(),
        ensures
            cmd_runs(cmds@, state, r),
            r matches Ok(s) ==> s.wf(),
        decreases cmds,
    {
        let ghost all = cmds;
        assert(all@.len() == cmds.len());
        let mut rest = cmds;
        let mut current: CmdResult<State> = Ok(state);
        let mut i: usize = 0;
        let ghost mut trace: Seq<CmdResult<State>> = seq![current];
        while rest.len() > 0
            invariant
                all == cmds,
                i <= all@.len(),
                all@.len() <= usize::MAX,
                rest@.len() + i == all@.len(),
                rest@ == all@.subrange(i as int, all@.len() as int),
                cmd_trace(all@.subrange(0, i as int), state, trace),
                trace.last() == current,
                current matches Ok(s) ==> s.wf(),
            decreases rest@.len(),
        {
            let cmd = rest.remove(0);
            proof {
                assert(cmd == all@[i as int]);
                vstd::std_specs::vec::axiom_vec_index_decreases(all, i as int);
                assert(decreases_to!(all => cmd));
            }
            let ghost c = cmd;
            current = match current {
                Ok(s) => cmd.run(s),
                Err(e) => Err(e),
            };
            proof {
                let prefix = all@.subrange(0, i as int + 1);
                let next = trace.push(current);
                assert(cmd_step(c, next[i as int], next[i as int + 1]));
                assert forall|j: int| 0 <= j < prefix.len() implies #[trigger] cmd_step(
                    prefix[j],
                    next[j],
                    next[j + 1],
                ) by {
                    if j < i {
                        assert(prefix[j] == all@.subrange(0, i as int)[j]);
                        assert(cmd_step(all@.subrange(0, i as int)[j], trace[j], trace[j + 1]));
                    }
                }
                trace = next;
            }
            i += 1;
        }
        proof {
            assert(all@.subrange(0, i as int) =~= all@);
            assert(cmd_trace(all@, state, trace));
        }
        current
    }
}

} // verus!
