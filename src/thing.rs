//! References to stored records, written `table:id`.
use vstd::prelude::*;
use crate::error::{missing_thing, Error};

verus! {

/// A reference to a stored record: the table it lives in and its key there.
#[derive(Clone, Debug)]
pub struct ThingDerived {
    pub tb: String,
    pub id: String,
}

impl View for ThingDerived {
    type V = (Seq<char>, Seq<char>);

    open spec fn view(&self) -> (Seq<char>, Seq<char>) {
        (self.tb@, self.id@)
    }
}

impl ThingDerived {
    /// Whether both references name the same record.
    pub fn same_as(&self, other: &ThingDerived) -> (r: bool)
        ensures
            r == (self@ == other@),
    {
        self.tb == other.tb && self.id == other.id
    }

    /// A copy of this reference.
    pub fn duplicate(&self) -> (r: ThingDerived)
        ensures
            r == *self,
    {
        ThingDerived { tb: self.tb.clone(), id: self.id.clone() }
    }
}

/// The key of a stored record: a failure for a record that has none yet.
pub fn key_of(id: &Option<ThingDerived>) -> (r: Result<ThingDerived, Error>)
    ensures
        match id {
            Some(k) => r == Ok::<ThingDerived, Error>(*k),
            None => r matches Err(e) && e is Generic,
        },
{
    match id {
        Some(k) => Ok(k.duplicate()),
        None => Err(missing_thing()),
    }
}

} // verus!
