//! One-parent, many-children relationships between entities. A child names
//! its parent; each parent keeps the ordered list of its children; both views
//! are always updated together, and a parent whose last child leaves is
//! dropped. Giving a child a new parent detaches it from the old one, and no
//! assignment may close a cycle.
use std::collections::HashMap;
use vstd::prelude::*;

use crate::applicable::{CmdErr, CmdResult};
use crate::component::component::ComponentValue;
use crate::registry::Id;
use crate::subsys::round::lemma_removed;

verus! {

broadcast use vstd::std_specs::hash::group_hash_axioms;

type Children = Vec<Id>;

/// The ancestors of `child` under `parents`, root first, following at most
/// `fuel` links.
pub open spec fn ancestry(parents: Map<Id, Id>, child: Id, fuel: nat) -> Seq<Id>
    decreases fuel,
{
    if fuel == 0 || !parents.contains_key(child) {
        Seq::empty()
    } else {
        ancestry(parents, parents[child], (fuel - 1) as nat).push(parents[child])
    }
}

/// `s` without its occurrence of `c`, if it has one.
pub open spec fn drop_child(s: Seq<Id>, c: Id) -> Seq<Id> {
    if s.contains(c) {
        s.remove(s.index_of(c))
    } else {
        s
    }
}

proof fn lemma_drop_child(s: Seq<Id>, c: Id)
    requires
        s.no_duplicates(),
    ensures
        drop_child(s, c).no_duplicates(),
        forall|x: Id| #[trigger] drop_child(s, c).contains(x) == (s.contains(x) && x != c),
        s.contains(c) ==> drop_child(s, c).len() == s.len() - 1,
{
    if s.contains(c) {
        let i = s.index_of(c);
        assert(0 <= i < s.len() && s[i] == c);
        lemma_removed(s, i);
        s.remove_ensures(i);
    }
}

/// The index of `x` in `v`, if `v` holds it.
pub(crate) fn index_in(v: &Vec<Id>, x: Id) -> (r: Option<usize>)
    requires
        v@.no_duplicates(),
    ensures
        r is None == !v@.contains(x),
        r matches Some(i) ==> i < v@.len() && v@[i as int] == x && i == v@.index_of(x),
{
    let mut i: usize = 0;
    while i < v.len()
        invariant
            i <= v@.len(),
            v@.no_duplicates(),
            forall|j: int| 0 <= j < i ==> v@[j] != x,
        decreases v@.len() - i,
    {
        if v[i] == x {
            proof {
                assert(v@[i as int] == x);
                assert(v@.contains(x));
                let k = v@.index_of(x);
                assert(0 <= k < v@.len() && v@[k] == x);
                assert(k == i as int);
            }
            return Some(i);
        }
        i += 1;
    }
    None
}

/// Whether `v` holds `x`.
fn holds(v: &Vec<Id>, x: Id) -> (r: bool)
    ensures
        r == v@.contains(x),
{
    let mut i: usize = 0;
    while i < v.len()
        invariant
            i <= v@.len(),
            forall|j: int| 0 <= j < i ==> v@[j] != x,
        decreases v@.len() - i,
    {
        if v[i] == x {
            proof {
                assert(v@[i as int] == x);
            }
            return true;
        }
        i += 1;
    }
    false
}

/// `after` is `before` with `parent` made the parent of `child`, and `child`
/// detached from any earlier parent.
pub open spec fn parent_set(before: Hierarchy, after: Hierarchy, child: Id, parent: Id) -> bool {
    &&& after.parents() == before.parents().insert(child, parent)
    &&& forall|x: Id| #[trigger]
        after.kids(x) == if x == parent {
            before.kids(x).push(child)
        } else {
            drop_child(before.kids(x), child)
        }
}

/// `after` is `before` with `child` detached from its parent.
pub open spec fn parent_removed(before: Hierarchy, after: Hierarchy, child: Id) -> bool {
    &&& after.parents() == before.parents().remove(child)
    &&& forall|x: Id| #[trigger] after.kids(x) == drop_child(before.kids(x), child)
}

/// `after` is `before` with every child of `parent` detached from it.
pub open spec fn children_freed(before: Hierarchy, after: Hierarchy, parent: Id) -> bool {
    &&& forall|c: Id| #[trigger]
        after.parents().contains_key(c) == (before.parents().contains_key(c)
            && !before.kids(parent).contains(c))
    &&& forall|c: Id| #[trigger]
        after.parents().contains_key(c) ==> after.parents()[c] == before.parents()[c]
    &&& after.kids(parent) == Seq::<Id>::empty()
    &&& forall|x: Id| x != parent ==> #[trigger] after.kids(x) == before.kids(x)
}

/// After `child` is given the parent `parent`, `parent` is its parent and
/// lists it among its children; after that parent is removed again, `child`
/// has no parent and is no child of `parent`, and `parent` is a parent no more
/// once it has no children left.
pub proof fn lemma_hierarchy_consistency(
    before: Hierarchy,
    assigned: Hierarchy,
    released: Hierarchy,
    child: Id,
    parent: Id,
)
    requires
        before.wf(),
        assigned.wf(),
        released.wf(),
        parent_set(before, assigned, child, parent),
        parent_removed(assigned, released, child),
    ensures
        assigned.parents().contains_key(child),
        assigned.parents()[child] == parent,
        assigned.kids(parent).contains(child),
        !released.parents().contains_key(child),
        !released.kids(parent).contains(child),
        released.kids(parent).len() == 0 ==> !released.parent_ids().contains(parent),
{
    assert(assigned.kids(parent) == before.kids(parent).push(child));
    assert(assigned.kids(parent)[before.kids(parent).len() as int] == child);
    released.lemma_wf();
}

#[derive(Debug, Clone, PartialEq, Eq)]
pub struct Hierarchy {
    child_parent: HashMap<Id, Id>,
    parent_children: HashMap<Id, Children>,
}

impl Default for Hierarchy {
    fn default() -> (r: Self)
        ensures
            r.wf(),
            r.parents() == Map::<Id, Id>::empty(),
            forall|p: Id| #[trigger] r.kids(p) == Seq::<Id>::empty(),
    {
        Hierarchy { child_parent: HashMap::new(), parent_children: HashMap::new() }
    }
}

impl Hierarchy {
    /// Each child's parent.
    pub closed spec fn parents(&self) -> Map<Id, Id> {
        self.child_parent@
    }

    /// The children of `parent`, in the order they were assigned; empty for
    /// an identifier that is no parent.
    pub closed spec fn kids(&self, parent: Id) -> Seq<Id> {
        if self.parent_children@.contains_key(parent) {
            self.parent_children@[parent]@
        } else {
            Seq::empty()
        }
    }

    /// The identifiers that have at least one child.
    pub closed spec fn parent_ids(&self) -> Set<Id> {
        self.parent_children@.dom()
    }

    closed spec fn lists_ok(&self) -> bool {
        forall|p: Id| #[trigger]
            self.parent_children@.contains_key(p) ==> self.parent_children@[p]@.len() > 0
                && self.parent_children@[p]@.no_duplicates()
    }

    /// The two views agree, and no parent has an empty or repeating list.
    pub closed spec fn wf(&self) -> bool {
        &&& forall|c: Id| #[trigger]
            self.child_parent@.contains_key(c) ==> self.kids(self.child_parent@[c]).contains(c)
        &&& forall|p: Id, c: Id| #[trigger]
            self.kids(p).contains(c) ==> self.child_parent@.contains_key(c) && self.child_parent@[c]
                == p
        &&& self.lists_ok()
    }

    /// Whether `parent` may become the parent of `child`: they differ,
    /// `child` is no ancestor of `parent`, and `parent` is not its parent yet.
    pub open spec fn can_set_parent(&self, child: Id, parent: Id) -> bool {
        &&& child != parent
        &&& !self.ancestors_of(parent).contains(child)
        &&& !(self.parents().contains_key(child) && self.parents()[child] == parent)
    }

    /// The ancestors of `child`, root first.
    pub open spec fn ancestors_of(&self, child: Id) -> Seq<Id> {
        ancestry(self.parents(), child, self.parents().dom().len())
    }

    /// What callers may rely on of a well-formed hierarchy: a child is listed
    /// by its parent alone, each list is free of repeats, and the parents are
    /// exactly those with children.
    pub proof fn lemma_wf(&self)
        requires
            self.wf(),
        ensures
            forall|p: Id, c: Id| #[trigger]
                self.kids(p).contains(c) == (self.parents().contains_key(c) && self.parents()[c]
                    == p),
            forall|p: Id| #[trigger] self.kids(p).no_duplicates(),
            forall|p: Id| #[trigger] self.parent_ids().contains(p) == (self.kids(p).len() > 0),
    {
        assert forall|p: Id, c: Id| #[trigger]
            self.kids(p).contains(c) == (self.parents().contains_key(c) && self.parents()[c]
                == p) by {
            if self.parents().contains_key(c) && self.parents()[c] == p {
                assert(self.kids(self.child_parent@[c]).contains(c));
            }
        }
    }

    pub fn new() -> (r: Self)
        ensures
            r.wf(),
            r.parents() == Map::<Id, Id>::empty(),
            forall|p: Id| #[trigger] r.kids(p) == Seq::<Id>::empty(),
    {
        Self::default()
    }

    /// How many identifiers have a parent.
    pub fn child_count(&self) -> (r: usize)
        ensures
            r == self.parents().dom().len(),
    {
        self.child_parent.len()
    }

    /// How many identifiers have children.
    pub fn parent_count(&self) -> (r: usize)
        ensures
            r == self.parent_ids().len(),
    {
        self.parent_children.len()
    }

    pub fn is_parent(&self, parent: Id) -> (r: bool)
        requires
            self.wf(),
        ensures
            r == (self.kids(parent).len() > 0),
            r == self.parent_ids().contains(parent),
    {
        match self.parent_children.get(&parent) {
            None => false,
            Some(children) => children.len() != 0,
        }
    }

    /// The immediate children of `parent`; empty for an unknown parent.
    pub fn children(&self, parent: Id) -> (r: Vec<Id>)
        ensures
            r@ == self.kids(parent),
    {
        match self.parent_children.get(&parent) {
            Some(children) => children.duplicate(),
            None => Vec::new(),
        }
    }

    pub fn is_child(&self, child: Id) -> (r: bool)
        ensures
            r == self.parents().contains_key(child),
    {
        self.child_parent.contains_key(&child)
    }

    pub fn parent(&self, child: Id) -> (r: Option<Id>)
        ensures
            r is Some == self.parents().contains_key(child),
            r is Some ==> r.unwrap() == self.parents()[child],
    {
        match self.child_parent.get(&child) {
            Some(id) => Some(*id),
            None => None,
        }
    }

    /// The ancestors of `child`, from the root down to its parent; empty for
    /// an identifier without a parent.
    pub fn ancestors(&self, child: Id) -> (r: Vec<Id>)
        ensures
            r@ == self.ancestors_of(child),
    {
        let fuel0 = self.child_parent.len();
        let mut out: Vec<Id> = Vec::new();
        let mut cur = child;
        let mut fuel = fuel0;
        while fuel > 0
            invariant
                fuel <= fuel0,
                fuel0 == self.parents().dom().len(),
                ancestry(self.parents(), child, fuel0 as nat) == ancestry(
                    self.parents(),
                    cur,
                    fuel as nat,
                ) + out@,
            ensures
                fuel == 0 || !self.parents().contains_key(cur),
                ancestry(self.parents(), child, fuel0 as nat) == ancestry(
                    self.parents(),
                    cur,
                    fuel as nat,
                ) + out@,
            decreases fuel,
        {
            match self.child_parent.get(&cur) {
                Some(p) => {
                    let p = *p;
                    let ghost before = out@;
                    out.insert(0, p);
                    proof {
                        assert(ancestry(self.parents(), cur, fuel as nat) == ancestry(
                            self.parents(),
                            p,
                            (fuel - 1) as nat,
                        ).push(p));
                        assert(ancestry(self.parents(), p, (fuel - 1) as nat).push(p) + before
                            =~= ancestry(self.parents(), p, (fuel - 1) as nat) + out@);
                    }
                    cur = p;
                    fuel -= 1;
                },
                None => {
                    break;
                },
            }
        }
        proof {
            assert(ancestry(self.parents(), cur, fuel as nat) + out@ =~= out@);
        }
        out
    }

    /// The ancestors of `child` followed by `child` itself.
    pub fn lineage(&self, child: Id) -> (r: Vec<Id>)
        ensures
            r@ == self.ancestors_of(child).push(child),
    {
        let mut ancestors = self.ancestors(child);
        ancestors.push(child);
        ancestors
    }

    /// Takes `child` out of the list of `parent`, dropping `parent` when the
    /// list becomes empty.
    fn remove_child(&mut self, parent: Id, child: Id)
        requires
            old(self).lists_ok(),
            old(self).kids(parent).contains(child),
        ensures
            final(self).lists_ok(),
            final(self).parents() == old(self).parents(),
            final(self).kids(parent) == drop_child(old(self).kids(parent), child),
            forall|x: Id| x != parent ==> #[trigger] final(self).kids(x) == old(self).kids(x),
    {
        let mut list = match self.parent_children.get(&parent) {
            Some(l) => l.duplicate(),
            None => Vec::new(),
        };
        let index = match index_in(&list, child) {
            Some(i) => i,
            None => return ,
        };
        proof {
            lemma_drop_child(list@, child);
        }
        list.remove(index);
        if list.len() == 0 {
            self.parent_children.remove(&parent);
            proof {
                assert(self.kids(parent) =~= drop_child(old(self).kids(parent), child));
            }
        } else {
            self.parent_children.insert(parent, list);
        }
    }

    /// Appends `child` to the list of `parent`.
    fn set_child(&mut self, parent: Id, child: Id)
        requires
            old(self).lists_ok(),
            !old(self).kids(parent).contains(child),
        ensures
            final(self).lists_ok(),
            final(self).child_parent@ == old(self).child_parent@,
            final(self).kids(parent) == old(self).kids(parent).push(child),
            forall|x: Id| x != parent ==> #[trigger] final(self).kids(x) == old(self).kids(x),
    {
        let mut list = match self.parent_children.get(&parent) {
            Some(l) => l.duplicate(),
            None => Vec::new(),
        };
        let ghost before = list@;
        list.push(child);
        proof {
            assert forall|a: int, b: int|
                0 <= a < list@.len() && 0 <= b < list@.len() && a != b implies list@[a]
                != list@[b] by {
                if a == before.len() {
                    assert(!before.contains(child));
                    assert(list@[b] == before[b]);
                } else if b == before.len() {
                    assert(!before.contains(child));
                    assert(list@[a] == before[a]);
                } else {
                    assert(list@[a] == before[a]);
                    assert(list@[b] == before[b]);
                }
            }
        }
        self.parent_children.insert(parent, list);
    }

    /// Detaches `child` from its parent.
    pub fn remove_parent(&mut self, child: Id) -> (r: CmdResult<()>)
        requires
            old(self).wf(),
        ensures
            final(self).wf(),
            r is Ok == old(self).parents().contains_key(child),
            r is Err ==> *final(self) == *old(self) && r == Err::<(), CmdErr>(CmdErr::NotFound),
            r is Ok ==> parent_removed(*old(self), *final(self), child),
    {
        let parent = match self.child_parent.get(&child) {
            None => return Err(CmdErr::NotFound),
            Some(parent) => *parent,
        };
        proof {
            assert(self.kids(parent).contains(child));
            lemma_drop_child(self.kids(parent), child);
        }
        self.child_parent.remove(&child);
        self.remove_child(parent, child);
        proof {
            let o = old(self);
            assert forall|x: Id| #[trigger] self.kids(x) == drop_child(o.kids(x), child) by {
                if x != parent {
                    if o.kids(x).contains(child) {
                        assert(o.child_parent@[child] == x);
                    }
                }
            }
            assert forall|c: Id| #[trigger] self.child_parent@.contains_key(c) implies self.kids(
                self.child_parent@[c],
            ).contains(c) by {
                let q = o.child_parent@[c];
                assert(o.kids(q).contains(c));
                lemma_drop_child(o.kids(q), child);
            }
            assert forall|p: Id, c: Id| #[trigger] self.kids(p).contains(c) implies self.child_parent@.contains_key(c)
                && self.child_parent@[c] == p by {
                lemma_drop_child(o.kids(p), child);
                assert(o.kids(p).contains(c));
            }
        }
        Ok(())
    }

    /// Makes `parent` the parent of `child`, detaching `child` from any
    /// earlier parent. Refused when `child` is `parent` or one of its
    /// ancestors, and when `parent` already is the parent of `child`.
    pub fn set_parent(&mut self, child: Id, parent: Id) -> (r: CmdResult<()>)
        requires
            old(self).wf(),
        ensures
            final(self).wf(),
            r is Ok == old(self).can_set_parent(child, parent),
            child == parent || old(self).ancestors_of(parent).contains(child) ==> r == Err::<
                (),
                CmdErr,
            >(CmdErr::PreconditionFailed),
            child != parent && !old(self).ancestors_of(parent).contains(child) && old(
                self,
            ).parents().contains_key(child) && old(self).parents()[child] == parent ==> r == Err::<
                (),
                CmdErr,
            >(CmdErr::AlreadyExists),
            r is Err ==> *final(self) == *old(self),
            r is Ok ==> parent_set(*old(self), *final(self), child, parent),
    {
        if child == parent {
            return Err(CmdErr::PreconditionFailed);
        }
        let ancestors = self.ancestors(parent);
        if holds(&ancestors, child) {
            return Err(CmdErr::PreconditionFailed);
        }
        let ghost o = *self;
        match self.parent(child) {
            Some(previous) => {
                if previous == parent {
                    return Err(CmdErr::AlreadyExists);
                }
                proof {
                    assert(self.kids(previous).contains(child));
                }
                self.remove_child(previous, child);
            },
            None => {},
        }
        let ghost mid = *self;
        proof {
            assert forall|x: Id| #[trigger] mid.kids(x) == drop_child(o.kids(x), child) by {
                if o.kids(x).contains(child) {
                    assert(o.child_parent@[child] == x);
                }
            }
            lemma_drop_child(o.kids(parent), child);
            assert(!mid.kids(parent).contains(child));
            assert(!o.kids(parent).contains(child));
            assert(mid.kids(parent) == o.kids(parent));
        }
        self.child_parent.insert(child, parent);
        self.set_child(parent, child);
        proof {
            assert forall|x: Id| #[trigger] self.kids(x) == if x == parent {
                o.kids(x).push(child)
            } else {
                drop_child(o.kids(x), child)
            } by {
                if x == parent {
                    assert(self.kids(parent) == mid.kids(parent).push(child));
                } else {
                    assert(self.kids(x) == mid.kids(x));
                }
            }
            assert forall|c: Id| #[trigger] self.child_parent@.contains_key(c) implies self.kids(
                self.child_parent@[c],
            ).contains(c) by {
                if c == child {
                    assert(self.kids(parent) == mid.kids(parent).push(child));
                    assert(self.kids(parent)[mid.kids(parent).len() as int] == child);
                } else {
                    let q = o.child_parent@[c];
                    assert(o.kids(q).contains(c));
                    lemma_drop_child(o.kids(q), child);
                    assert(mid.kids(q).contains(c));
                    if q == parent {
                        let k = choose|k: int| 0 <= k < mid.kids(q).len() && mid.kids(q)[k] == c;
                        assert(self.kids(q)[k] == c);
                    }
                }
            }
            assert forall|p: Id, c: Id| #[trigger] self.kids(p).contains(c) implies self.child_parent@.contains_key(c)
                && self.child_parent@[c] == p by {
                lemma_drop_child(o.kids(p), child);
                if p == parent {
                    let k = choose|k: int| 0 <= k < self.kids(p).len() && self.kids(p)[k] == c;
                    if k < mid.kids(p).len() {
                        assert(mid.kids(p)[k] == c);
                        assert(mid.kids(p).contains(c));
                        assert(o.kids(p).contains(c));
                    }
                } else {
                    assert(o.kids(p).contains(c));
                }
            }
        }
        Ok(())
    }

    /// Detaches every child of `parent` from it.
    pub fn free_children_from(&mut self, parent: Id) -> (r: CmdResult<()>)
        requires
            old(self).wf(),
        ensures
            final(self).wf(),
            r is Ok,
            children_freed(*old(self), *final(self), parent),
    {
        let kids = self.children(parent);
        let ghost o = *self;
        proof {
            o.lemma_wf();
        }
        let mut i: usize = 0;
        while i < kids.len()
            invariant
                self.wf(),
                i <= kids@.len(),
                kids@ == o.kids(parent),
                kids@.no_duplicates(),
                forall|c: Id| #[trigger] o.kids(parent).contains(c) == (o.parents().contains_key(c)
                    && o.parents()[c] == parent),
                forall|c: Id| #[trigger]
                    self.parents().contains_key(c) == (o.parents().contains_key(c)
                        && !kids@.subrange(0, i as int).contains(c)),
                forall|c: Id| #[trigger]
                    self.parents().contains_key(c) ==> self.parents()[c] == o.parents()[c],
                self.kids(parent) == kids@.subrange(i as int, kids@.len() as int),
                forall|x: Id| x != parent ==> #[trigger] self.kids(x) == o.kids(x),
            decreases kids@.len() - i,
        {
            let child = kids[i];
            let ghost before = *self;
            proof {
                assert(kids@.contains(child));
                assert(o.parents().contains_key(child));
                assert(!kids@.subrange(0, i as int).contains(child));
            }
            let _ = self.remove_parent(child);
            proof {
                let rest = kids@.subrange(i as int, kids@.len() as int);
                assert(rest[0] == child);
                assert(rest.contains(child));
                let k = rest.index_of(child);
                assert(rest[k] == child);
                assert(k == 0);
                assert(self.kids(parent) =~= kids@.subrange(i as int + 1, kids@.len() as int));
                assert forall|c: Id| #[trigger]
                    self.parents().contains_key(c) == (o.parents().contains_key(c)
                        && !kids@.subrange(0, i as int + 1).contains(c)) by {
                    let longer = kids@.subrange(0, i as int + 1);
                    let shorter = kids@.subrange(0, i as int);
                    if longer.contains(c) && c != child {
                        let j = choose|j: int| 0 <= j < longer.len() && #[trigger] longer[j] == c;
                        assert(shorter[j] == c);
                    }
                    if shorter.contains(c) {
                        let j = choose|j: int| 0 <= j < shorter.len() && #[trigger] shorter[j] == c;
                        assert(longer[j] == c);
                    }
                    if c == child {
                        assert(kids@.subrange(0, i as int + 1)[i as int] == c);
                    }
                }
                assert forall|x: Id| x != parent implies #[trigger] self.kids(x) == o.kids(x) by {
                    assert(!before.kids(x).contains(child));
                }
            }
            i += 1;
        }
        proof {
            assert(self.kids(parent) =~= Seq::<Id>::empty());
            assert(kids@.subrange(0, i as int) =~= kids@);
        }
        Ok(())
    }
}

} // verus!
