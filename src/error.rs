use vstd::prelude::*;

verus! {

/// A descriptive error raised by a command, a query, or anything else.
pub enum Error {
    Command(String),
    Query(String),
    Generic(String),
}

/// Builds a command error carrying `error`.
pub fn cmd_err(error: &str) -> (r: Error)
    ensures
        r matches Error::Command(s) && s@ == error@,
{
    Error::Command(error.to_string())
}

/// Builds a query error carrying `error`.
pub fn qry_err(error: &str) -> (r: Error)
    ensures
        r matches Error::Query(s) && s@ == error@,
{
    Error::Query(error.to_string())
}

/// Builds a generic error carrying `error`.
pub fn err(error: &str) -> (r: Error)
    ensures
        r matches Error::Generic(s) && s@ == error@,
{
    Error::Generic(error.to_string())
}

} // verus!
