//! Queries that carry the state along, so that a query can be followed by a
//! command built from its answer.
use vstd::prelude::*;

use crate::applicable::{Applicable, CmdErr, CmdResult};
use crate::state::State;

verus! {

pub type QueryError = CmdErr;

pub type QueryResult<QueriedData> = Result<(State, QueriedData), QueryError>;

/// A state that can be asked a question by a query function.
pub trait Queryable<QueryData, F>: Sized {
    /// Whether `query_fn` may be asked of this state.
    spec fn can_ask(&self, query_fn: F) -> bool;

    /// Whether `r` is what asking `query_fn` of this state gives.
    spec fn answers(&self, query_fn: F, r: QueryResult<QueryData>) -> bool;

    fn query(self, query_fn: F) -> (r: QueryResult<QueryData>)
        requires
            self.can_ask(query_fn),
        ensures
            self.answers(query_fn, r),
    ;
}

impl<QueryData, F: Fn(&State) -> Result<QueryData, QueryError>> Queryable<QueryData, F> for State {
    open spec fn can_ask(&self, query_fn: F) -> bool {
        query_fn.requires((self,))
    }

    /// The state comes back untouched beside the answer; a refused query
    /// is the result.
    open spec fn answers(&self, query_fn: F, r: QueryResult<QueryData>) -> bool {
        exists|answer: Result<QueryData, QueryError>|
            #[trigger] query_fn.ensures((self,), answer) && match answer {
                Ok(data) => r == Ok::<(State, QueryData), QueryError>((*self, data)),
                Err(e) => r == Err::<(State, QueryData), QueryError>(e),
            }
    }

    fn query(self, query_fn: F) -> (r: QueryResult<QueryData>) {
        let answer = query_fn(&self);
        let ghost a = answer;
        match answer {
            Ok(response) => {
                let r = Ok((self, response));
                proof {
                    assert(query_fn.ensures((&self,), a));
                }
                r
            },
            Err(e) => Err(e),
        }
    }
}

/// Lets a query result take a command built from its answer.
pub trait ApplicableQueryResult<QueriedData>: Sized {
    /// The result this value stands for.
    spec fn outcome(&self) -> QueryResult<QueriedData>;

    fn apply_with<Applicator: Applicable, F: Fn(QueriedData) -> Applicator>(self, make_applicable: F) -> (r:
        CmdResult<State>)
        requires
            self.outcome() matches Ok(found) ==> found.0.wf() && make_applicable.requires((found.1,)),
            forall|d: QueriedData, a: Applicator, s: State|
                #![trigger make_applicable.ensures((d,), a), a.accepts(s)]
                make_applicable.ensures((d,), a) && s.wf() ==> a.accepts(s),
        ensures
            match self.outcome() {
                Ok(found) => exists|command: Applicator|
                    #[trigger] make_applicable.ensures((found.1,), command) && command.produces(
                        found.0,
                        r,
                    ),
                Err(e) => r == Err::<State, CmdErr>(e),
            },
            r matches Ok(s) ==> s.wf(),
    ;
}

impl<QueriedData> ApplicableQueryResult<QueriedData> for QueryResult<QueriedData> {
    open spec fn outcome(&self) -> QueryResult<QueriedData> {
        *self
    }

    fn apply_with<Applicator: Applicable, F: Fn(QueriedData) -> Applicator>(
        self,
        applicator_factory: F,
    ) -> (r: CmdResult<State>) {
        match self {
            Ok((state, queried_data)) => {
                let command = applicator_factory(queried_data);
                let ghost made = command;
                let r = command.apply_to(state);
                proof {
                    assert(made.produces(state, r));
                }
                r
            },
            Err(e) => CmdResult::Err(e),
        }
    }
}

} // verus!
