//! The command pipeline: a command turns a state into a new state or a
//! refusal; a batch runs commands in order and stops at the first refusal;
//! a result can be chained into the next command.
use vstd::prelude::*;

use crate::state::State;

verus! {

/// Why a command was refused.
#[derive(Debug, Clone, Copy, PartialEq, Eq, Structural)]
pub enum CmdErr {
    /// Something the command needs does not exist.
    NotFound,
    /// The command would create something that already exists.
    AlreadyExists,
    /// The target is not in a state the command can act on.
    InvalidTransition,
    /// A position or an offset falls outside what is allowed.
    OutOfRange,
    /// Some other condition the command requires does not hold.
    PreconditionFailed,
}

pub type CmdResult<ResultOk> = Result<ResultOk, CmdErr>;

/// A command that can be applied to a state.
pub trait Applicable: Sized {
    /// Whether `self` may be applied to the consistent state `state`. The
    /// declared commands accept every state; a closure accepts the states
    /// its own contract admits.
    spec fn accepts(&self, state: State) -> bool;

    /// Whether applying `self` to `before` gives `after`.
    spec fn produces(&self, before: State, after: CmdResult<State>) -> bool;

    fn apply_to(self, state: State) -> (r: CmdResult<State>)
        requires
            state.wf(),
            self.accepts(state),
        ensures
            self.produces(state, r),
            r matches Ok(s) ==> s.wf(),
    ;

    fn apply_to_default(self) -> (r: CmdResult<State>)
        requires
            forall|s: State| s.is_initial() && s.wf() ==> #[trigger] self.accepts(s),
        ensures
            exists|s: State| #[trigger] s.is_initial() && s.wf() && self.produces(s, r),
            r matches Ok(s) ==> s.wf(),
    ;
}

/// A single-use command given as a closure from a state to a new state or a
/// refusal.
pub struct AdHoc<F>(pub F);

impl<F: FnOnce(State) -> CmdResult<State>> Applicable for AdHoc<F> {
    open spec fn accepts(&self, state: State) -> bool {
        &&& self.0.requires((state,))
        &&& forall|r: CmdResult<State>| #[trigger]
            self.0.ensures((state,), r) ==> (r matches Ok(s) ==> s.wf())
    }

    open spec fn produces(&self, before: State, after: CmdResult<State>) -> bool {
        self.0.ensures((before,), after)
    }

    fn apply_to(self, state: State) -> (r: CmdResult<State>) {
        (self.0)(state)
    }

    fn apply_to_default(self) -> (r: CmdResult<State>) {
        let ghost command = self;
        let state = State::default();
        assert(self.accepts(state));
        let r = (self.0)(state);
        proof {
            assert(state.is_initial() && state.wf() && command.produces(state, r));
        }
        r
    }
}

/// Whether every element of `cmds` accepts every consistent state.
pub open spec fn all_accept<T: Applicable>(cmds: Seq<T>) -> bool {
    forall|i: int, s: State| 0 <= i < cmds.len() && s.wf() ==> #[trigger] cmds[i].accepts(s)
}

/// `r` follows from applying `cmd` to `mid`, unless `mid` is already a
/// refusal, which is carried on.
pub open spec fn step<T: Applicable>(cmd: T, mid: CmdResult<State>, r: CmdResult<State>) -> bool {
    match mid {
        Ok(s) => cmd.produces(s, r),
        Err(e) => r == Err::<State, CmdErr>(e),
    }
}

/// `trace` lists the results of applying `cmds` one after another to `s`.
pub open spec fn is_trace<T: Applicable>(
    cmds: Seq<T>,
    s: State,
    trace: Seq<CmdResult<State>>,
) -> bool {
    &&& trace.len() == cmds.len() + 1
    &&& trace[0] == Ok::<State, CmdErr>(s)
    &&& forall|i: int| 0 <= i < cmds.len() ==> #[trigger] step(cmds[i], trace[i], trace[i + 1])
}

/// `r` is what applying `cmds` one after another to `s` gives, stopping at
/// the first refusal.
pub open spec fn runs<T: Applicable>(cmds: Seq<T>, s: State, r: CmdResult<State>) -> bool {
    exists|trace: Seq<CmdResult<State>>| #[trigger] is_trace(cmds, s, trace) && trace.last() == r
}

/// Applies `cmds` in order to `state`, stopping at the first refusal.
pub fn apply_in_order<T: Applicable>(cmds: Vec<T>, state: State) -> (r: CmdResult<State>)
    requires
        state.wf(),
        all_accept(cmds@),
    ensures
        runs(cmds@, state, r),
        r matches Ok(s) ==> s.wf(),
{
    let ghost all = cmds@;
    assert(all.len() == cmds.len());
    let mut rest = cmds;
    let mut current: CmdResult<State> = Ok(state);
    let mut i: usize = 0;
    let ghost mut trace: Seq<CmdResult<State>> = seq![current];
    while rest.len() > 0
        invariant
            i <= all.len(),
            all.len() <= usize::MAX,
            rest@.len() + i == all.len(),
            rest@ == all.subrange(i as int, all.len() as int),
            is_trace(all.subrange(0, i as int), state, trace),
            trace.last() == current,
            current matches Ok(s) ==> s.wf(),
            all_accept(all),
        decreases rest@.len(),
    {
        let cmd = rest.remove(0);
        proof {
            assert(cmd == all[i as int]);
        }
        let ghost c = cmd;
        current = match current {
            Ok(s) => cmd.apply_to(s),
            Err(e) => Err(e),
        };
        proof {
            let prefix = all.subrange(0, i as int + 1);
            let next = trace.push(current);
            assert(step(c, next[i as int], next[i as int + 1]));
            assert forall|j: int| 0 <= j < prefix.len() implies #[trigger] step(
                prefix[j],
                next[j],
                next[j + 1],
            ) by {
                if j < i {
                    assert(prefix[j] == all.subrange(0, i as int)[j]);
                    assert(step(all.subrange(0, i as int)[j], trace[j], trace[j + 1]));
                }
            }
            trace = next;
        }
        i += 1;
    }
    proof {
        assert(all.subrange(0, i as int) =~= all);
        assert(is_trace(all, state, trace));
    }
    current
}

/// A vector of commands is itself a command: its elements are applied in
/// order, stopping at the first refusal.
impl<T: Applicable> Applicable for Vec<T> {
    open spec fn accepts(&self, state: State) -> bool {
        all_accept(self@)
    }

    open spec fn produces(&self, before: State, after: CmdResult<State>) -> bool {
        runs(self@, before, after)
    }

    fn apply_to(self, state: State) -> (r: CmdResult<State>) {
        apply_in_order(self, state)
    }

    fn apply_to_default(self) -> (r: CmdResult<State>) {
        let state = State::default();
        assert(self.accepts(state));
        let r = apply_in_order(self, state);
        proof {
            assert(state.is_initial() && state.wf() && self.produces(state, r));
        }
        r
    }
}

/// `r` follows from applying, to `mid`, the command that `factory` makes of
/// `item`, unless `mid` is already a refusal.
pub open spec fn step_with<T, A: Applicable, F: Fn(T) -> A>(
    item: T,
    factory: F,
    mid: CmdResult<State>,
    r: CmdResult<State>,
) -> bool {
    match mid {
        Ok(s) => exists|a: A| #[trigger] factory.ensures((item,), a) && a.produces(s, r),
        Err(e) => r == Err::<State, CmdErr>(e),
    }
}

/// `trace` lists the results of applying, one after another, the commands
/// that `factory` makes of `items`.
pub open spec fn is_trace_with<T, A: Applicable, F: Fn(T) -> A>(
    items: Seq<T>,
    factory: F,
    s: State,
    trace: Seq<CmdResult<State>>,
) -> bool {
    &&& trace.len() == items.len() + 1
    &&& trace[0] == Ok::<State, CmdErr>(s)
    &&& forall|i: int|
        0 <= i < items.len() ==> #[trigger] step_with(items[i], factory, trace[i], trace[i + 1])
}

/// `r` is what applying the commands that `factory` makes of `items`, one
/// after another, to `s` gives, stopping at the first refusal.
pub open spec fn runs_with<T, A: Applicable, F: Fn(T) -> A>(
    items: Seq<T>,
    factory: F,
    s: State,
    r: CmdResult<State>,
) -> bool {
    exists|trace: Seq<CmdResult<State>>| #[trigger]
        is_trace_with(items, factory, s, trace) && trace.last() == r
}

impl State {
    /// Applies `command` to this state.
    pub fn apply<T: Applicable>(self, command: T) -> (r: CmdResult<State>)
        requires
            self.wf(),
            command.accepts(self),
        ensures
            command.produces(self, r),
            r matches Ok(s) ==> s.wf(),
    {
        command.apply_to(self)
    }

    /// Applies, in order, the command that `applicable_factory` makes of each
    /// of `items`, stopping at the first refusal.
    pub fn apply_with<T, A: Applicable, F: Fn(T) -> A>(self, items: Vec<T>, applicable_factory: F) -> (r:
        CmdResult<State>)
        requires
            self.wf(),
            forall|t: T| #[trigger] applicable_factory.requires((t,)),
            forall|t: T, a: A, s: State|
                #![trigger applicable_factory.ensures((t,), a), a.accepts(s)]
                applicable_factory.ensures((t,), a) && s.wf() ==> a.accepts(s),
        ensures
            runs_with(items@, applicable_factory, self, r),
            r matches Ok(s) ==> s.wf(),
    {
        let ghost start = self;
        let ghost all = items@;
        assert(all.len() == items.len());
        let mut rest = items;
        let mut current: CmdResult<State> = Ok(self);
        let mut i: usize = 0;
        let ghost mut trace: Seq<CmdResult<State>> = seq![current];
        while rest.len() > 0
            invariant
                i <= all.len(),
                all.len() <= usize::MAX,
                rest@.len() + i == all.len(),
                rest@ == all.subrange(i as int, all.len() as int),
                is_trace_with(all.subrange(0, i as int), applicable_factory, start, trace),
                trace.last() == current,
                current matches Ok(s) ==> s.wf(),
                forall|t: T| #[trigger] applicable_factory.requires((t,)),
                forall|t: T, a: A, s: State|
                    #![trigger applicable_factory.ensures((t,), a), a.accepts(s)]
                    applicable_factory.ensures((t,), a) && s.wf() ==> a.accepts(s),
            decreases rest@.len(),
        {
            let item = rest.remove(0);
            proof {
                assert(item == all[i as int]);
            }
            let ghost it = item;
            let ghost before = current;
            current = match current {
                Ok(s) => {
                    let command = applicable_factory(item);
                    let ghost made = command;
                    let r = command.apply_to(s);
                    proof {
                        assert(applicable_factory.ensures((it,), made) && made.produces(s, r));
                    }
                    r
                },
                Err(e) => Err(e),
            };
            proof {
                let prefix = all.subrange(0, i as int + 1);
                let next = trace.push(current);
                assert(step_with(it, applicable_factory, before, current));
                assert(step_with(prefix[i as int], applicable_factory, next[i as int], next[i as int + 1]));
                assert forall|j: int| 0 <= j < prefix.len() implies #[trigger] step_with(
                    prefix[j],
                    applicable_factory,
                    next[j],
                    next[j + 1],
                ) by {
                    if j < i {
                        assert(prefix[j] == all.subrange(0, i as int)[j]);
                        assert(step_with(
                            all.subrange(0, i as int)[j],
                            applicable_factory,
                            trace[j],
                            trace[j + 1],
                        ));
                    }
                }
                trace = next;
            }
            i += 1;
        }
        proof {
            assert(all.subrange(0, i as int) =~= all);
            assert(is_trace_with(all, applicable_factory, start, trace));
        }
        current
    }
}

/// Lets a command result take the next command: a state has it applied, a
/// refusal is passed on untouched.
pub trait ApplicableChainable: Sized {
    /// The result this value stands for.
    spec fn outcome(&self) -> CmdResult<State>;

    fn apply<T: Applicable>(self, command: T) -> (r: CmdResult<State>)
        requires
            self.outcome() matches Ok(s) ==> s.wf() && command.accepts(s),
        ensures
            step(command, self.outcome(), r),
            r matches Ok(s) ==> s.wf(),
    ;
}

impl ApplicableChainable for CmdResult<State> {
    open spec fn outcome(&self) -> CmdResult<State> {
        *self
    }

    fn apply<T: Applicable>(self, command: T) -> (r: CmdResult<State>) {
        match self {
            Ok(state) => state.apply(command),
            Err(e) => Err(e),
        }
    }
}

/// Lets a command result take a batch made by a factory: a state has it
/// applied, a refusal is passed on untouched.
pub trait ApplicableWithChainable: Sized {
    /// The result this value stands for.
    spec fn outcome(&self) -> CmdResult<State>;

    fn apply_with<T, A: Applicable, F: Fn(T) -> A>(self, items: Vec<T>, make_applicable: F) -> (r:
        CmdResult<State>)
        requires
            self.outcome() matches Ok(s) ==> s.wf(),
            forall|t: T| #[trigger] make_applicable.requires((t,)),
            forall|t: T, a: A, s: State|
                #![trigger make_applicable.ensures((t,), a), a.accepts(s)]
                make_applicable.ensures((t,), a) && s.wf() ==> a.accepts(s),
        ensures
            match self.outcome() {
                Ok(s) => runs_with(items@, make_applicable, s, r),
                Err(e) => r == Err::<State, CmdErr>(e),
            },
            r matches Ok(s) ==> s.wf(),
    ;
}

impl ApplicableWithChainable for CmdResult<State> {
    open spec fn outcome(&self) -> CmdResult<State> {
        *self
    }

    fn apply_with<T, A: Applicable, F: Fn(T) -> A>(self, items: Vec<T>, applicable_factory: F) -> (r:
        CmdResult<State>) {
        match self {
            Ok(state) => state.apply_with(items, applicable_factory),
            Err(e) => Err(e),
        }
    }
}

} // verus!
