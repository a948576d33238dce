//! Rules shared by the stores of every kind of record.
use vstd::prelude::*;
use crate::error::{no_result, Error};
use crate::thing::ThingDerived;

verus! {

/// Page size of a listing that names none.
pub const DEFAULT_LIMIT: usize = 10;

/// The offset and page size of a listing: the given ones, else the defaults.
pub fn window(offset: Option<usize>, limit: Option<usize>, default_offset: usize) -> (r: (usize, usize))
    ensures
        r.0 == match offset {
            Some(o) => o,
            None => default_offset,
        },
        r.1 == match limit {
            Some(l) => l,
            None => DEFAULT_LIMIT,
        },
{
    let o = match offset {
        Some(o) => o,
        None => default_offset,
    };
    let l = match limit {
        Some(l) => l,
        None => DEFAULT_LIMIT,
    };
    (o, l)
}

/// A lookup by reference only reads from the table that the reference names.
pub fn check_table(id: &ThingDerived, table: &str) -> (r: Result<(), Error>)
    ensures
        r is Ok <==> id.tb@ == table@,
        r matches Err(e) ==> e is Generic,
{
    let t = table.to_owned();
    if id.tb == t {
        Ok(())
    } else {
        Err(Error::Generic { description: "Wrong table name in select_by_id".to_owned() })
    }
}

/// Turns the answers of store queries into results.
pub struct Unwrapper {}

impl Unwrapper {
    /// The record a query found, or a "no result" failure carrying `err`.
    pub fn unwrapper_option<R>(found: Option<R>, err: &str) -> (r: Result<R, Error>)
        ensures
            match found {
                Some(v) => r == Ok::<R, Error>(v),
                None => r matches Err(Error::SurrealDbNoResult { id, .. }) && id@ == err@,
            },
    {
        match found {
            Some(v) => Ok(v),
            None => Err(no_result(err)),
        }
    }
}

} // verus!
