use std::collections::HashMap;
use vstd::prelude::*;

use crate::applicable::{CmdErr, CmdResult};
use crate::registry::Id;

verus! {

broadcast use vstd::std_specs::hash::group_hash_axioms;

/// A value that an attribute store can hold: it can hand out a copy of itself
/// that has the same view.
pub trait ComponentValue: View + Sized {
    fn duplicate(&self) -> (r: Self)
        ensures
            r@ == self@,
    ;
}

impl ComponentValue for String {
    fn duplicate(&self) -> (r: String) {
        self.clone()
    }
}

impl ComponentValue for u8 {
    fn duplicate(&self) -> (r: u8) {
        *self
    }
}

impl ComponentValue for i8 {
    fn duplicate(&self) -> (r: i8) {
        *self
    }
}

impl ComponentValue for usize {
    fn duplicate(&self) -> (r: usize) {
        *self
    }
}

impl ComponentValue for Vec<Id> {
    fn duplicate(&self) -> (r: Vec<Id>) {
        let mut r: Vec<Id> = Vec::new();
        let mut i: usize = 0;
        while i < self.len()
            invariant
                i <= self@.len(),
                r@ == self@.subrange(0, i as int),
            decreases self@.len() - i,
        {
            r.push(self[i]);
            i += 1;
            assert(r@ =~= self@.subrange(0, i as int));
        }
        assert(r@ =~= self@);
        r
    }
}

/// A sparse store of one attribute kind, keyed by internal identifier.
///
/// `insert` refuses to overwrite, `update` always stores, and `delete` refuses
/// to remove what was never set.
#[derive(Debug, Clone, PartialEq, Eq)]
pub struct Component<CV> {
    pub values: HashMap<Id, CV>,
}

impl<CV> View for Component<CV> {
    type V = Map<Id, CV>;

    open spec fn view(&self) -> Map<Id, CV> {
        self.values@
    }
}

/// The laws of a store `m`: an insert on an unset key succeeds and is then
/// read back; a second insert on that key is refused; an update stores
/// whatever came before; a delete on an unset key is refused; after a delete
/// the key reads as absent.
pub proof fn lemma_attribute_laws<CV>(m: Map<Id, CV>, id: Id, value: CV, other: CV)
    ensures
        !m.contains_key(id) ==> m.insert(id, value).contains_key(id) && m.insert(id, value)[id]
            == value,
        m.insert(id, value).contains_key(id),
        m.insert(id, other).contains_key(id) && m.insert(id, other)[id] == other,
        !m.remove(id).contains_key(id),
{
}

impl<CV> Default for Component<CV> {
    fn default() -> (r: Self)
        ensures
            r@ == Map::<Id, CV>::empty(),
    {
        Component { values: HashMap::new() }
    }
}

impl<CV: ComponentValue> Component<CV> {
    /// An empty store.
    pub fn new() -> (r: Self)
        ensures
            r@ == Map::<Id, CV>::empty(),
    {
        Component { values: HashMap::new() }
    }

    pub fn is_empty(&self) -> (r: bool)
        ensures
            r == (self@.dom().len() == 0),
    {
        self.values.is_empty()
    }

    pub fn is_set(&self, id: Id) -> (r: bool)
        ensures
            r == self@.contains_key(id),
    {
        self.values.contains_key(&id)
    }

    pub fn get(&self, id: Id) -> (r: Option<CV>)
        ensures
            r.is_some() == self@.contains_key(id),
            r.is_some() ==> r.unwrap()@ == self@[id]@,
    {
        match self.values.get(&id) {
            Some(v) => Some(v.duplicate()),
            None => None,
        }
    }

    pub fn insert(&mut self, id: Id, value: CV) -> (r: CmdResult<()>)
        ensures
            r is Ok == !old(self)@.contains_key(id),
            r is Ok ==> final(self)@ == old(self)@.insert(id, value),
            r is Err ==> final(self)@ == old(self)@ && r == Err::<(), CmdErr>(CmdErr::AlreadyExists),
    {
        if self.is_set(id) {
            return Err(CmdErr::AlreadyExists);
        }
        self.values.insert(id, value);
        Ok(())
    }

    pub fn update(&mut self, id: Id, value: CV) -> (r: CmdResult<()>)
        ensures
            r is Ok,
            final(self)@ == old(self)@.insert(id, value),
    {
        self.values.insert(id, value);
        Ok(())
    }

    pub fn delete(&mut self, id: Id) -> (r: CmdResult<()>)
        ensures
            r is Ok == old(self)@.contains_key(id),
            r is Ok ==> final(self)@ == old(self)@.remove(id),
            r is Err ==> final(self)@ == old(self)@ && r == Err::<(), CmdErr>(CmdErr::NotFound),
    {
        if !self.is_set(id) {
            return Err(CmdErr::NotFound);
        }
        self.values.remove(&id);
        Ok(())
    }
}

} // verus!
