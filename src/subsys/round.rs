//! The turn-order engine: who plays when, how far each turn has got, and
//! when a round may end.
use vstd::prelude::*;

use crate::applicable::{CmdErr, CmdResult};
use crate::component::component::{Component, ComponentValue};
use crate::registry::Id;

verus! {

pub type RoundCount = usize;

pub type Sequence = Vec<Id>;

pub type Initiative = i8;

pub type TurnStates = Component<TurnStatus>;

pub type Initiatives = Component<Initiative>;

/// Where a turn stands within the current round. `Held(n)` is a turn put off
/// `n` round advances ago.
#[derive(Debug, Clone, Copy, PartialEq, Eq, Structural)]
pub enum TurnStatus {
    Available,
    Active,
    Paused,
    Completed,
    Skipped,
    Held(usize),
}

impl View for TurnStatus {
    type V = TurnStatus;

    open spec fn view(&self) -> TurnStatus {
        *self
    }
}

impl ComponentValue for TurnStatus {
    fn duplicate(&self) -> (r: TurnStatus) {
        *self
    }
}

/// Whether a turn in status `s` lets the round end.
pub open spec fn closes_round(s: TurnStatus) -> bool {
    s is Completed || s is Skipped || s is Held
}

/// The status a turn carries into the next round: a hold ages by one (it
/// stays put at the largest count), anything else becomes available again.
pub open spec fn carried_over(s: TurnStatus) -> TurnStatus {
    match s {
        TurnStatus::Held(n) => TurnStatus::Held(
            if n < usize::MAX {
                (n + 1) as usize
            } else {
                n
            },
        ),
        _ => TurnStatus::Available,
    }
}

/// Whether the turn `a` (initiative `ia`) plays strictly before the turn `b`
/// (initiative `ib`): lower initiative first, equal initiatives by lower id.
pub open spec fn initiative_precedes(ia: Initiative, a: Id, ib: Initiative, b: Id) -> bool {
    ia < ib || (ia == ib && a < b)
}

/// Whether `s` is in initiative order under the initiatives `inits`.
pub open spec fn initiative_sorted(s: Seq<Id>, inits: Map<Id, Initiative>) -> bool {
    forall|i: int, j: int|
        #![trigger s[i], s[j]]
        0 <= i < j < s.len() ==> initiative_precedes(inits[s[i]], s[i], inits[s[j]], s[j])
}

/// The index at which a turn taken out of index `from` lands when it is put
/// immediately before the turn now at index `anchor`.
pub open spec fn slot_before(from: int, anchor: int) -> int {
    if from < anchor {
        anchor - 1
    } else {
        anchor
    }
}

/// Whether a turn held `n` round advances ago, at index `held`, may be
/// activated by the turn at index `trigger`.
pub open spec fn may_activate(n: usize, held: int, trigger: int) -> bool {
    (n == 0 && held < trigger) || (n == 1 && trigger < held)
}

/// `s` with the element at `from` taken out and put back at `to`.
pub open spec fn relocated(s: Seq<Id>, from: int, to: int) -> Seq<Id> {
    s.remove(from).insert(to, s[from])
}

/// Moving one element of a sequence without repeats keeps its length, its
/// elements, and its lack of repeats.
pub(crate) proof fn lemma_relocated(s: Seq<Id>, from: int, to: int)
    requires
        s.no_duplicates(),
        0 <= from < s.len(),
        0 <= to < s.len(),
    ensures
        relocated(s, from, to).no_duplicates(),
        relocated(s, from, to).len() == s.len(),
        forall|x: Id| #[trigger] relocated(s, from, to).contains(x) == s.contains(x),
{
    let r = s.remove(from);
    s.remove_ensures(from);
    r.insert_ensures(to, s[from]);
    let t = relocated(s, from, to);
    // every index of `t` maps back to a distinct index of `s`
    let back = |k: int|
        if k < to {
            if k < from { k } else { k + 1 }
        } else if k == to {
            from
        } else {
            if k - 1 < from { k - 1 } else { k }
        };
    assert forall|k: int| 0 <= k < t.len() implies 0 <= #[trigger] back(k) < s.len() && t[k] == s[back(k)] by {
        if k < to {
        } else if k == to {
        } else {
        }
    }
    assert forall|a: int, b: int| 0 <= a < t.len() && 0 <= b < t.len() && a != b implies t[a] != t[b] by {
        assert(t[a] == s[back(a)]);
        assert(t[b] == s[back(b)]);
    }
    assert forall|x: Id| #[trigger] t.contains(x) == s.contains(x) by {
        if t.contains(x) {
            let k = choose|k: int| 0 <= k < t.len() && t[k] == x;
            assert(s[back(k)] == x);
        }
        if s.contains(x) {
            let i = choose|i: int| 0 <= i < s.len() && s[i] == x;
            if i == from {
                assert(t[to] == x);
            } else if i < from {
                if i < to {
                    assert(t[i] == x);
                } else {
                    assert(t[i + 1] == x);
                }
            } else {
                if i - 1 < to {
                    assert(t[i - 1] == x);
                } else {
                    assert(t[i] == x);
                }
            }
        }
    }
}

/// A turn moved to just before its anchor lands at the slot, with the
/// anchor right after it.
pub(crate) proof fn lemma_placed_before(s: Seq<Id>, from: int, anchor: int)
    requires
        s.no_duplicates(),
        0 <= from < s.len(),
        0 <= anchor < s.len(),
        from != anchor,
    ensures
        relocated(s, from, slot_before(from, anchor)).index_of(s[from]) == slot_before(from, anchor),
        relocated(s, from, slot_before(from, anchor)).index_of(s[anchor]) == slot_before(from, anchor)
            + 1,
{
    let to = slot_before(from, anchor);
    lemma_relocated(s, from, to);
    let r = s.remove(from);
    s.remove_ensures(from);
    r.insert_ensures(to, s[from]);
    let t = relocated(s, from, to);
    assert(t[to] == s[from]);
    if from < anchor {
        assert(r[anchor - 1] == s[anchor]);
        assert(t[to + 1] == r[to]);
    } else {
        assert(r[anchor] == s[anchor]);
        assert(t[to + 1] == r[to]);
    }
    assert(t[to + 1] == s[anchor]);
    assert(t.contains(s[from]));
    assert(t.contains(s[anchor]));
    let i = t.index_of(s[from]);
    let j = t.index_of(s[anchor]);
    assert(t[i] == s[from]);
    assert(t[j] == s[anchor]);
}

/// Removing one element of a sequence without repeats removes exactly that
/// element.
pub(crate) proof fn lemma_removed(s: Seq<Id>, i: int)
    requires
        s.no_duplicates(),
        0 <= i < s.len(),
    ensures
        s.remove(i).no_duplicates(),
        forall|x: Id| #[trigger] s.remove(i).contains(x) == (s.contains(x) && x != s[i]),
{
    s.remove_ensures(i);
    let t = s.remove(i);
    assert forall|x: Id| #[trigger] t.contains(x) == (s.contains(x) && x != s[i]) by {
        if t.contains(x) {
            let k = choose|k: int| 0 <= k < t.len() && t[k] == x;
            if k < i {
                assert(s[k] == x);
            } else {
                assert(s[k + 1] == x);
            }
        }
        if s.contains(x) && x != s[i] {
            let j = choose|j: int| 0 <= j < s.len() && s[j] == x;
            if j < i {
                assert(t[j] == x);
            } else {
                assert(t[j - 1] == x);
            }
        }
    }
}

/// `after` is `before` with a turn for `id` appended, available, with
/// initiative `initiative`.
pub open spec fn turn_added(before: Round, after: Round, id: Id, initiative: Initiative) -> bool {
    &&& after.count == before.count
    &&& after.sequence@ == before.sequence@.push(id)
    &&& after.turn_states@ == before.turn_states@.insert(id, TurnStatus::Available)
    &&& after.initiatives@ == before.initiatives@.insert(id, initiative)
}

/// `after` is `before` without the turn of `id`.
pub open spec fn turn_removed(before: Round, after: Round, id: Id) -> bool {
    &&& after.count == before.count
    &&& after.sequence@ == before.sequence@.remove(before.position(id))
    &&& after.turn_states@ == before.turn_states@.remove(id)
    &&& after.initiatives@ == before.initiatives@.remove(id)
}

/// `after` is `before` with its turns put in initiative order.
pub open spec fn turns_ordered(before: Round, after: Round) -> bool {
    &&& after.count == before.count
    &&& after.turn_states@ == before.turn_states@
    &&& after.initiatives@ == before.initiatives@
    &&& after.sequence@.len() == before.sequence@.len()
    &&& forall|x: Id| #[trigger] after.sequence@.contains(x) == before.sequence@.contains(x)
    &&& initiative_sorted(after.sequence@, after.initiatives@)
}

/// `after` is `before` with the status of `id` set to `status`.
pub open spec fn status_set(before: Round, after: Round, id: Id, status: TurnStatus) -> bool {
    &&& after.count == before.count
    &&& after.sequence@ == before.sequence@
    &&& after.initiatives@ == before.initiatives@
    &&& after.turn_states@ == before.turn_states@.insert(id, status)
}

/// `after` is `before` with the turn at `from` moved to `to`.
pub open spec fn turn_moved(before: Round, after: Round, from: int, to: int) -> bool {
    &&& after.count == before.count
    &&& after.turn_states@ == before.turn_states@
    &&& after.initiatives@ == before.initiatives@
    &&& after.sequence@ == relocated(before.sequence@, from, to)
}

/// `after` is `before` one round later.
pub open spec fn round_advanced(before: Round, after: Round) -> bool {
    &&& after.count == before.count + 1
    &&& after.sequence@ == before.sequence@
    &&& after.initiatives@ == before.initiatives@
    &&& after.turn_states@ == before.turn_states@.map_values(|s: TurnStatus| carried_over(s))
}

/// The state of play: the order of turns, each turn's status and initiative,
/// and how many rounds have ended.
#[derive(Debug, Clone, PartialEq, Eq)]
pub struct Round {
    pub count: RoundCount,
    pub sequence: Sequence,
    pub turn_states: TurnStates,
    pub initiatives: Initiatives,
}

impl Default for Round {
    fn default() -> (r: Self)
        ensures
            r.wf(),
            r.count == 0,
            r.sequence@ == Seq::<Id>::empty(),
            r.turn_states@ == Map::<Id, TurnStatus>::empty(),
            r.initiatives@ == Map::<Id, Initiative>::empty(),
    {
        Round {
            count: 0,
            sequence: Vec::new(),
            turn_states: Component::new(),
            initiatives: Component::new(),
        }
    }
}

impl Round {
    /// The sequence holds each turn once, and exactly the turns in it have a
    /// status and an initiative.
    pub open spec fn wf(&self) -> bool {
        &&& self.sequence@.no_duplicates()
        &&& forall|id: Id| #[trigger]
            self.turn_states@.contains_key(id) == self.sequence@.contains(id)
        &&& forall|id: Id| #[trigger]
            self.initiatives@.contains_key(id) == self.sequence@.contains(id)
    }

    pub open spec fn has_turn(&self, id: Id) -> bool {
        self.sequence@.contains(id)
    }

    /// The index of the turn of `id` in the sequence.
    pub open spec fn position(&self, id: Id) -> int {
        self.sequence@.index_of(id)
    }

    /// Every turn in the sequence is completed, skipped or held.
    pub open spec fn round_closable(&self) -> bool {
        forall|i: int|
            0 <= i < self.sequence@.len() ==> closes_round(
                self.turn_states@[#[trigger] self.sequence@[i]],
            )
    }

    /// The turn of `id` is held, and `trigger` stands where it may activate it.
    pub open spec fn activation_allowed(&self, id: Id, trigger: Id) -> bool {
        match self.turn_states@[id] {
            TurnStatus::Held(n) => may_activate(n, self.position(id), self.position(trigger)),
            _ => false,
        }
    }

    fn find(&self, id: Id) -> (r: Option<usize>)
        requires
            self.sequence@.no_duplicates(),
        ensures
            r is None == !self.sequence@.contains(id),
            r matches Some(i) ==> i < self.sequence@.len() && self.sequence@[i as int] == id
                && i == self.sequence@.index_of(id),
    {
        let mut i: usize = 0;
        while i < self.sequence.len()
            invariant
                i <= self.sequence@.len(),
                self.sequence@.no_duplicates(),
                forall|j: int| 0 <= j < i ==> self.sequence@[j] != id,
            decreases self.sequence@.len() - i,
        {
            if self.sequence[i] == id {
                proof {
                    assert(self.sequence@[i as int] == id);
                    assert(self.sequence@.contains(id));
                    let k = self.sequence@.index_of(id);
                    assert(0 <= k < self.sequence@.len() && self.sequence@[k] == id);
                    assert(k == i as int);
                }
                return Some(i);
            }
            i += 1;
        }
        None
    }

    /// Gives `entity_id` a turn at the end of the sequence, available, with
    /// the given initiative.
    pub fn add_turn(&mut self, entity_id: Id, initiative: Initiative) -> (r: CmdResult<()>)
        requires
            old(self).wf(),
        ensures
            final(self).wf(),
            final(self).count == old(self).count,
            r is Ok == !old(self).has_turn(entity_id),
            r is Err ==> *final(self) == *old(self) && r == Err::<(), CmdErr>(CmdErr::AlreadyExists),
            r is Ok ==> turn_added(*old(self), *final(self), entity_id, initiative),
    {
        if self.find(entity_id).is_some() {
            return Err(CmdErr::AlreadyExists);
        }
        let _ = self.initiatives.insert(entity_id, initiative);
        let _ = self.turn_states.insert(entity_id, TurnStatus::Available);
        self.sequence.push(entity_id);
        proof {
            assert forall|x: Id| #[trigger] self.sequence@.contains(x) == (old(self).sequence@.contains(x) || x == entity_id) by {
                if old(self).sequence@.contains(x) {
                    let k = choose|k: int| 0 <= k < old(self).sequence@.len() && old(self).sequence@[k] == x;
                    assert(self.sequence@[k] == x);
                }
                if x == entity_id {
                    assert(self.sequence@[old(self).sequence@.len() as int] == x);
                }
            }
        }
        Ok(())
    }

    /// Takes the turn of `entity_id` out of play, with its status and
    /// initiative.
    pub fn remove_turn(&mut self, entity_id: Id) -> (r: CmdResult<()>)
        requires
            old(self).wf(),
        ensures
            final(self).wf(),
            final(self).count == old(self).count,
            r is Ok == old(self).has_turn(entity_id),
            r is Err ==> *final(self) == *old(self) && r == Err::<(), CmdErr>(CmdErr::NotFound),
            r is Ok ==> turn_removed(*old(self), *final(self), entity_id),
    {
        let index = match self.find(entity_id) {
            Some(i) => i,
            None => return Err(CmdErr::NotFound),
        };
        proof {
            lemma_removed(self.sequence@, index as int);
        }
        self.sequence.remove(index);
        let _ = self.turn_states.delete(entity_id);
        let _ = self.initiatives.delete(entity_id);
        Ok(())
    }

    /// Sets the status of the turn of `entity_id`, whatever it was.
    pub fn update_turn_state(&mut self, entity_id: Id, turn_status: TurnStatus) -> (r: CmdResult<()>)
        requires
            old(self).wf(),
        ensures
            final(self).wf(),
            final(self).count == old(self).count,
            final(self).sequence@ == old(self).sequence@,
            final(self).initiatives@ == old(self).initiatives@,
            r is Ok == old(self).has_turn(entity_id),
            r is Err ==> *final(self) == *old(self) && r == Err::<(), CmdErr>(CmdErr::NotFound),
            r is Ok ==> status_set(*old(self), *final(self), entity_id, turn_status),
    {
        if self.find(entity_id).is_none() {
            return Err(CmdErr::NotFound);
        }
        let _ = self.turn_states.update(entity_id, turn_status);
        Ok(())
    }

    fn initiative_of(&self, id: Id) -> (r: Initiative)
        requires
            self.initiatives@.contains_key(id),
        ensures
            r == self.initiatives@[id],
    {
        match self.initiatives.get(id) {
            Some(v) => v,
            None => 0,
        }
    }

    /// The turns of the sequence in initiative order.
    fn sorted_by_initiative(&self) -> (r: Vec<Id>)
        requires
            self.wf(),
        ensures
            r@.len() == self.sequence@.len(),
            r@.no_duplicates(),
            forall|x: Id| #[trigger] r@.contains(x) == self.sequence@.contains(x),
            initiative_sorted(r@, self.initiatives@),
    {
        let mut out: Vec<Id> = Vec::new();
        let mut i: usize = 0;
        while i < self.sequence.len()
            invariant
                self.wf(),
                i <= self.sequence@.len(),
                out@.len() == i,
                out@.no_duplicates(),
                forall|x: Id| #[trigger] out@.contains(x) == self.sequence@.subrange(0, i as int).contains(x),
                initiative_sorted(out@, self.initiatives@),
            decreases self.sequence@.len() - i,
        {
            let id = self.sequence[i];
            proof {
                assert(self.sequence@.contains(id));
                assert forall|k: int| 0 <= k < out@.len() implies #[trigger] out@[k] != id
                    && self.initiatives@.contains_key(out@[k]) by {
                    assert(out@.contains(out@[k]));
                    let j = choose|j: int| 0 <= j < i && self.sequence@.subrange(0, i as int)[j] == out@[k];
                    assert(self.sequence@[j] == out@[k]);
                    assert(self.sequence@.contains(out@[k]));
                }
            }
            let key = self.initiative_of(id);
            let mut p: usize = 0;
            while p < out.len()
                invariant
                    p <= out@.len(),
                    self.wf(),
                    self.initiatives@.contains_key(id),
                    key == self.initiatives@[id],
                    forall|k: int| 0 <= k < out@.len() ==> #[trigger] out@[k] != id
                        && self.initiatives@.contains_key(out@[k]),
                    forall|k: int| 0 <= k < p ==> initiative_precedes(
                        self.initiatives@[#[trigger] out@[k]], out@[k], key, id),
                ensures
                    p <= out@.len(),
                    forall|k: int| 0 <= k < p ==> initiative_precedes(
                        self.initiatives@[#[trigger] out@[k]], out@[k], key, id),
                    p < out@.len() ==> !initiative_precedes(
                        self.initiatives@[out@[p as int]], out@[p as int], key, id),
                decreases out@.len() - p,
            {
                let other = out[p];
                let other_key = self.initiative_of(other);
                if !(other_key < key || (other_key == key && other < id)) {
                    break;
                }
                p += 1;
            }
            let ghost prev = out@;
            out.insert(p, id);
            proof {
                prev.insert_ensures(p as int, id);
                let inits = self.initiatives@;
                assert forall|a: int, b: int| 0 <= a < b < out@.len() implies initiative_precedes(
                    inits[#[trigger] out@[a]], out@[a], inits[#[trigger] out@[b]], out@[b]) by {
                    if b < p {
                    } else if b == p {
                    } else if a < p {
                        assert(out@[b] == prev[b - 1]);
                        if p < prev.len() {
                            assert(!initiative_precedes(inits[prev[p as int]], prev[p as int], key, id));
                        }
                    } else if a == p {
                        assert(out@[b] == prev[b - 1]);
                        assert(!initiative_precedes(inits[prev[p as int]], prev[p as int], key, id));
                        if b - 1 > p {
                            assert(initiative_precedes(inits[prev[p as int]], prev[p as int], inits[prev[b - 1]], prev[b - 1]));
                        }
                    } else {
                        assert(out@[a] == prev[a - 1]);
                        assert(out@[b] == prev[b - 1]);
                    }
                }
                assert forall|a: int, b: int| 0 <= a < out@.len() && 0 <= b < out@.len() && a != b
                    implies out@[a] != out@[b] by {
                    if a != p && b != p {
                        let pa = if a < p { a } else { a - 1 };
                        let pb = if b < p { b } else { b - 1 };
                        assert(out@[a] == prev[pa]);
                        assert(out@[b] == prev[pb]);
                    } else if a == p {
                        let pb = if b < p { b } else { b - 1 };
                        assert(out@[b] == prev[pb]);
                    } else {
                        let pa = if a < p { a } else { a - 1 };
                        assert(out@[a] == prev[pa]);
                    }
                }
                let seen = self.sequence@.subrange(0, i as int + 1);
                assert forall|x: Id| #[trigger] out@.contains(x) == seen.contains(x) by {
                    if out@.contains(x) {
                        let k = choose|k: int| 0 <= k < out@.len() && out@[k] == x;
                        if k == p {
                            assert(seen[i as int] == x);
                        } else {
                            let pk = if k < p { k } else { k - 1 };
                            assert(prev[pk] == x);
                            assert(prev.contains(x));
                            let j = choose|j: int| 0 <= j < i && self.sequence@.subrange(0, i as int)[j] == x;
                            assert(seen[j] == x);
                        }
                    }
                    if seen.contains(x) {
                        let j = choose|j: int| 0 <= j <= i && seen[j] == x;
                        if j == i {
                            assert(out@[p as int] == x);
                        } else {
                            assert(self.sequence@.subrange(0, i as int)[j] == x);
                            assert(prev.contains(x));
                            let k = choose|k: int| 0 <= k < prev.len() && prev[k] == x;
                            if k < p {
                                assert(out@[k] == x);
                            } else {
                                assert(out@[k + 1] == x);
                            }
                        }
                    }
                }
            }
            i += 1;
        }
        proof {
            assert(self.sequence@.subrange(0, i as int) =~= self.sequence@);
        }
        out
    }

    /// Before play starts, puts the turns in initiative order: lowest
    /// initiative first, equal initiatives by lowest id.
    pub fn order_turns_by_initiative(&mut self) -> (r: CmdResult<()>)
        requires
            old(self).wf(),
        ensures
            final(self).wf(),
            final(self).count == old(self).count,
            final(self).turn_states@ == old(self).turn_states@,
            final(self).initiatives@ == old(self).initiatives@,
            r is Ok == (old(self).sequence@.len() >= 2 && old(self).count == 0),
            old(self).sequence@.len() < 2 ==> r == Err::<(), CmdErr>(CmdErr::PreconditionFailed),
            old(self).sequence@.len() >= 2 && old(self).count != 0 ==> r == Err::<(), CmdErr>(
                CmdErr::InvalidTransition,
            ),
            r is Err ==> *final(self) == *old(self),
            r is Ok ==> turns_ordered(*old(self), *final(self)),
    {
        if self.sequence.len() < 2 {
            return Err(CmdErr::PreconditionFailed);
        }
        if self.count != 0 {
            return Err(CmdErr::InvalidTransition);
        }
        let sorted = self.sorted_by_initiative();
        self.sequence = sorted;
        Ok(())
    }

    /// Ends the round once every turn is completed, skipped or held: the
    /// count goes up by one, holds age by one, all else becomes available.
    pub fn next_round(&mut self) -> (r: CmdResult<()>)
        requires
            old(self).wf(),
        ensures
            final(self).wf(),
            final(self).sequence@ == old(self).sequence@,
            final(self).initiatives@ == old(self).initiatives@,
            r is Ok == (old(self).sequence@.len() > 0 && old(self).round_closable() && old(self).count
                < usize::MAX),
            old(self).sequence@.len() == 0 ==> r == Err::<(), CmdErr>(CmdErr::PreconditionFailed),
            old(self).sequence@.len() > 0 && !old(self).round_closable() ==> r == Err::<(), CmdErr>(
                CmdErr::InvalidTransition,
            ),
            old(self).sequence@.len() > 0 && old(self).round_closable() && old(self).count
                == usize::MAX ==> r == Err::<(), CmdErr>(CmdErr::OutOfRange),
            r is Err ==> *final(self) == *old(self),
            r is Ok ==> round_advanced(*old(self), *final(self)),
    {
        if self.sequence.len() == 0 {
            return Err(CmdErr::PreconditionFailed);
        }
        let mut i: usize = 0;
        while i < self.sequence.len()
            invariant
                i <= self.sequence@.len(),
                self.wf(),
                forall|j: int|
                    0 <= j < i ==> closes_round(self.turn_states@[#[trigger] self.sequence@[j]]),
            decreases self.sequence@.len() - i,
        {
            let id = self.sequence[i];
            proof {
                assert(self.sequence@.contains(id));
            }
            match self.turn_states.get(id) {
                Some(TurnStatus::Completed) => {},
                Some(TurnStatus::Skipped) => {},
                Some(TurnStatus::Held(_)) => {},
                _ => {
                    return Err(CmdErr::InvalidTransition);
                },
            }
            i += 1;
        }
        if self.count == usize::MAX {
            return Err(CmdErr::OutOfRange);
        }
        self.count = self.count + 1;
        let mut i: usize = 0;
        while i < self.sequence.len()
            invariant
                i <= self.sequence@.len(),
                self.sequence@ == old(self).sequence@,
                self.initiatives@ == old(self).initiatives@,
                self.count == old(self).count + 1,
                old(self).wf(),
                self.turn_states@.dom() == old(self).turn_states@.dom(),
                forall|j: int|
                    0 <= j < i ==> self.turn_states@[#[trigger] self.sequence@[j]] == carried_over(
                        old(self).turn_states@[self.sequence@[j]],
                    ),
                forall|j: int|
                    i <= j < self.sequence@.len() ==> self.turn_states@[#[trigger] self.sequence@[j]]
                        == old(self).turn_states@[self.sequence@[j]],
            decreases self.sequence@.len() - i,
        {
            let id = self.sequence[i];
            proof {
                assert(self.sequence@.contains(id));
                assert(self.turn_states@.contains_key(id));
            }
            let status = match self.turn_states.get(id) {
                Some(s) => s,
                None => TurnStatus::Available,
            };
            let next = match status {
                TurnStatus::Held(n) => TurnStatus::Held(
                    if n < usize::MAX {
                        n + 1
                    } else {
                        n
                    },
                ),
                _ => TurnStatus::Available,
            };
            let _ = self.turn_states.update(id, next);
            proof {
                assert(self.turn_states@.dom() =~= old(self).turn_states@.dom());
            }
            i += 1;
        }
        proof {
            let target = old(self).turn_states@.map_values(|s: TurnStatus| carried_over(s));
            assert forall|k: Id| #[trigger] self.turn_states@.contains_key(k) implies self.turn_states@[k]
                == target[k] by {
                assert(self.sequence@.contains(k));
                let j = choose|j: int| 0 <= j < self.sequence@.len() && self.sequence@[j] == k;
                assert(self.turn_states@[self.sequence@[j]] == carried_over(
                    old(self).turn_states@[self.sequence@[j]],
                ));
            }
            assert(self.turn_states@ =~= target);
        }
        Ok(())
    }

    fn relocate(&mut self, from: usize, to: usize)
        requires
            old(self).wf(),
            from < old(self).sequence@.len(),
            to < old(self).sequence@.len(),
        ensures
            final(self).wf(),
            final(self).count == old(self).count,
            final(self).turn_states@ == old(self).turn_states@,
            final(self).initiatives@ == old(self).initiatives@,
            final(self).sequence@ == relocated(old(self).sequence@, from as int, to as int),
    {
        proof {
            lemma_relocated(self.sequence@, from as int, to as int);
        }
        let id = self.sequence.remove(from);
        self.sequence.insert(to, id);
    }

    /// Moves the turn of `entity_id` by `direction` places: later when
    /// positive, earlier when negative.
    pub fn update_turn_order(&mut self, entity_id: Id, direction: i8) -> (r: CmdResult<()>)
        requires
            old(self).wf(),
        ensures
            final(self).wf(),
            final(self).count == old(self).count,
            final(self).turn_states@ == old(self).turn_states@,
            final(self).initiatives@ == old(self).initiatives@,
            r is Ok == (direction != 0 && old(self).has_turn(entity_id) && 0 <= old(self).position(
                entity_id,
            ) + direction < old(self).sequence@.len()),
            direction == 0 ==> r == Err::<(), CmdErr>(CmdErr::PreconditionFailed),
            direction != 0 && !old(self).has_turn(entity_id) ==> r == Err::<(), CmdErr>(
                CmdErr::NotFound,
            ),
            direction != 0 && old(self).has_turn(entity_id) && !(0 <= old(self).position(entity_id)
                + direction < old(self).sequence@.len()) ==> r == Err::<(), CmdErr>(
                CmdErr::OutOfRange,
            ),
            r is Err ==> *final(self) == *old(self),
            r is Ok ==> turn_moved(
                *old(self),
                *final(self),
                old(self).position(entity_id),
                old(self).position(entity_id) + direction,
            ),
    {
        if direction == 0 {
            return Err(CmdErr::PreconditionFailed);
        }
        let index = match self.find(entity_id) {
            Some(i) => i,
            None => return Err(CmdErr::NotFound),
        };
        let len = self.sequence.len();
        let new_index: usize = if direction < 0 {
            let back = (-(direction as i16)) as usize;
            if back > index {
                return Err(CmdErr::OutOfRange);
            }
            index - back
        } else {
            let forward = direction as usize;
            if forward >= len - index {
                return Err(CmdErr::OutOfRange);
            }
            index + forward
        };
        self.relocate(index, new_index);
        Ok(())
    }

    /// Moves the turn of `entity_id_to_move` to just before the turn of
    /// `before_entity_id`.
    pub fn move_turn_before(&mut self, entity_id_to_move: Id, before_entity_id: Id) -> (r: CmdResult<()>)
        requires
            old(self).wf(),
        ensures
            final(self).wf(),
            final(self).count == old(self).count,
            final(self).turn_states@ == old(self).turn_states@,
            final(self).initiatives@ == old(self).initiatives@,
            r is Ok == (old(self).has_turn(entity_id_to_move) && old(self).has_turn(before_entity_id)
                && slot_before(old(self).position(entity_id_to_move), old(self).position(before_entity_id))
                != old(self).position(entity_id_to_move)),
            !old(self).has_turn(entity_id_to_move) || !old(self).has_turn(before_entity_id)
                ==> r == Err::<(), CmdErr>(CmdErr::NotFound),
            old(self).has_turn(entity_id_to_move) && old(self).has_turn(before_entity_id) && slot_before(
                old(self).position(entity_id_to_move),
                old(self).position(before_entity_id),
            ) == old(self).position(entity_id_to_move) ==> r == Err::<(), CmdErr>(
                CmdErr::PreconditionFailed,
            ),
            r is Err ==> *final(self) == *old(self),
            r is Ok ==> turn_moved(
                *old(self),
                *final(self),
                old(self).position(entity_id_to_move),
                slot_before(old(self).position(entity_id_to_move), old(self).position(before_entity_id)),
            ),
    {
        let from = match self.find(entity_id_to_move) {
            Some(i) => i,
            None => return Err(CmdErr::NotFound),
        };
        let anchor = match self.find(before_entity_id) {
            Some(i) => i,
            None => return Err(CmdErr::NotFound),
        };
        let to: usize = if from < anchor {
            anchor - 1
        } else {
            anchor
        };
        if to == from {
            return Err(CmdErr::PreconditionFailed);
        }
        self.relocate(from, to);
        Ok(())
    }

    /// Activates the held turn of `entity_id` on the action of the turn of
    /// `triggering_entity_id`: a hold from this round must stand before its
    /// trigger, a hold from the last round after it.
    pub fn activate_delayed_turn(&mut self, entity_id: Id, triggering_entity_id: Id) -> (r: CmdResult<()>)
        requires
            old(self).wf(),
        ensures
            final(self).wf(),
            final(self).count == old(self).count,
            final(self).sequence@ == old(self).sequence@,
            final(self).initiatives@ == old(self).initiatives@,
            r is Ok == (old(self).has_turn(entity_id) && old(self).has_turn(triggering_entity_id)
                && old(self).activation_allowed(entity_id, triggering_entity_id)),
            !old(self).has_turn(entity_id) || !old(self).has_turn(triggering_entity_id) ==> r == Err::<
                (),
                CmdErr,
            >(CmdErr::NotFound),
            old(self).has_turn(entity_id) && old(self).has_turn(triggering_entity_id) && !(old(
                self,
            ).turn_states@[entity_id] is Held) ==> r == Err::<(), CmdErr>(CmdErr::InvalidTransition),
            old(self).has_turn(entity_id) && old(self).has_turn(triggering_entity_id) && old(
                self,
            ).turn_states@[entity_id] is Held && !old(self).activation_allowed(
                entity_id,
                triggering_entity_id,
            ) ==> r == Err::<(), CmdErr>(CmdErr::PreconditionFailed),
            r is Err ==> *final(self) == *old(self),
            r is Ok ==> status_set(*old(self), *final(self), entity_id, TurnStatus::Active),
    {
        let held_at = match self.find(entity_id) {
            Some(i) => i,
            None => return Err(CmdErr::NotFound),
        };
        let trigger_at = match self.find(triggering_entity_id) {
            Some(i) => i,
            None => return Err(CmdErr::NotFound),
        };
        proof {
            assert(self.sequence@.contains(entity_id));
        }
        let held_round_count = match self.turn_states.get(entity_id) {
            Some(TurnStatus::Held(n)) => n,
            _ => return Err(CmdErr::InvalidTransition),
        };
        let held_from_current_round = held_round_count == 0;
        let held_from_last_round = held_round_count == 1;
        if (held_from_current_round && held_at < trigger_at) || (held_from_last_round && trigger_at
            < held_at) {
            let _ = self.turn_states.update(entity_id, TurnStatus::Active);
            return Ok(());
        }
        Err(CmdErr::PreconditionFailed)
    }
}

} // verus!
