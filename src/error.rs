//! Failures reported to callers.
use vstd::prelude::*;

verus! {

/// What went wrong.
#[derive(Clone, Debug)]
pub enum Error {
    /// A failure described in words.
    Generic { description: String },
    /// The caller lacks the role that the operation asks for.
    Forbidden,
    /// The store answered without the record that was asked for.
    SurrealDbNoResult { source: String, id: String },
}

/// A failure together with the request it belongs to.
#[derive(Clone, Debug)]
pub struct ApiError {
    pub req_id: u128,
    pub error: Error,
}

/// Text of the failure for a record reference that holds no key.
pub fn missing_thing() -> (r: Error)
    ensures
        r is Generic,
{
    Error::Generic { description: "Can't get thing. Get none instead".to_owned() }
}

/// Text of the failure for a lookup whose record is absent.
pub fn no_result(what: &str) -> (r: Error)
    ensures
        r matches Error::SurrealDbNoResult { source, id } && id@ == what@,
{
    Error::SurrealDbNoResult { source: "internal".to_owned(), id: what.to_owned() }
}

} // verus!
