//! Lines (pipes) and their types, as far as the daily record needs them.
use vstd::prelude::*;
use crate::decimal::DecimalValue;
use crate::error::{no_result, Error};
use crate::repository::{check_table, window, DEFAULT_LIMIT};
use crate::thing::{key_of, ThingDerived};

verus! {

/// A physical line through which the product flows.
#[derive(Clone, Debug)]
pub struct Pipe {
    pub id: Option<ThingDerived>,
    pub name: String,
    pub pipe_type: ThingDerived,
    pub material: ThingDerived,
}

impl Pipe {
    /// The key under which this pipe is stored: a failure when it has none.
    pub fn thing(&self) -> (r: Result<ThingDerived, Error>)
        ensures
            match self.id {
                Some(k) => r == Ok::<ThingDerived, Error>(k),
                None => r matches Err(e) && e is Generic,
            },
    {
        key_of(&self.id)
    }
}

/// A kind of line, with its limits and the unit its flow is measured in.
#[derive(Clone, Debug)]
pub struct PipeType {
    pub id: Option<ThingDerived>,
    pub name: String,
    pub max_flow: DecimalValue,
    pub wearout_max: DecimalValue,
    pub units: ThingDerived,
}

impl PipeType {
    /// The key under which this pipe type is stored: a failure when it has none.
    pub fn thing(&self) -> (r: Result<ThingDerived, Error>)
        ensures
            match self.id {
                Some(k) => r == Ok::<ThingDerived, Error>(k),
                None => r matches Err(e) && e is Generic,
            },
    {
        key_of(&self.id)
    }
}

/// A stored record's key is `id`.
pub open spec fn keyed(key: Option<ThingDerived>, id: (Seq<char>, Seq<char>)) -> bool {
    key matches Some(k) && k@ == id
}

/// The first pipe among `pipes` stored under `id`.
pub open spec fn find_pipe(pipes: Seq<Pipe>, id: (Seq<char>, Seq<char>)) -> Option<Pipe>
    decreases pipes.len(),
{
    if pipes.len() == 0 {
        None
    } else {
        match find_pipe(pipes.drop_last(), id) {
            Some(p) => Some(p),
            None => if keyed(pipes.last().id, id) {
                Some(pipes.last())
            } else {
                None
            },
        }
    }
}

/// The first pipe type among `types` stored under `id`.
pub open spec fn find_pipe_type(types: Seq<PipeType>, id: (Seq<char>, Seq<char>)) -> Option<PipeType>
    decreases types.len(),
{
    if types.len() == 0 {
        None
    } else {
        match find_pipe_type(types.drop_last(), id) {
            Some(p) => Some(p),
            None => if keyed(types.last().id, id) {
                Some(types.last())
            } else {
                None
            },
        }
    }
}

/// Once a prefix holds the pipe, longer prefixes give the same.
proof fn lemma_find_pipe_prefix(pipes: Seq<Pipe>, id: (Seq<char>, Seq<char>), k: int)
    requires
        0 < k <= pipes.len(),
        find_pipe(pipes.subrange(0, k), id) is Some,
    ensures
        find_pipe(pipes, id) == find_pipe(pipes.subrange(0, k), id),
    decreases pipes.len() - k,
{
    if k < pipes.len() {
        assert(pipes.subrange(0, k + 1).drop_last() =~= pipes.subrange(0, k));
        lemma_find_pipe_prefix(pipes, id, k + 1);
    } else {
        assert(pipes.subrange(0, k) =~= pipes);
    }
}

/// Once a prefix holds the pipe type, longer prefixes give the same.
proof fn lemma_find_pipe_type_prefix(types: Seq<PipeType>, id: (Seq<char>, Seq<char>), k: int)
    requires
        0 < k <= types.len(),
        find_pipe_type(types.subrange(0, k), id) is Some,
    ensures
        find_pipe_type(types, id) == find_pipe_type(types.subrange(0, k), id),
    decreases types.len() - k,
{
    if k < types.len() {
        assert(types.subrange(0, k + 1).drop_last() =~= types.subrange(0, k));
        lemma_find_pipe_type_prefix(types, id, k + 1);
    } else {
        assert(types.subrange(0, k) =~= types);
    }
}

/// Lookups over the stored pipes.
pub struct PipeRepository {}

impl PipeRepository {
    /// The pipe stored under `id`: an error when `id` names another table or
    /// no pipe has that key.
    pub fn select_by_id<'a>(pipes: &'a Vec<Pipe>, id: &ThingDerived) -> (r: Result<&'a Pipe, Error>)
        ensures
            id.tb@ != "Pipe"@ ==> (r matches Err(e) && e is Generic),
            id.tb@ == "Pipe"@ ==> match r {
                Ok(p) => find_pipe(pipes@, id@) == Some(*p),
                Err(e) => find_pipe(pipes@, id@) is None && e is SurrealDbNoResult,
            },
    {
        match check_table(id, "Pipe") {
            Err(e) => return Err(e),
            Ok(()) => {},
        }
        let mut i: usize = 0;
        while i < pipes.len()
            invariant
                i <= pipes@.len(),
                id.tb@ == "Pipe"@,
                find_pipe(pipes@.subrange(0, i as int), id@) is None,
            decreases pipes@.len() - i,
        {
            assert(pipes@.subrange(0, i + 1).drop_last() =~= pipes@.subrange(0, i as int));
            let hit = match &pipes[i].id {
                Some(k) => k.same_as(id),
                None => false,
            };
            if hit {
                proof {
                    lemma_find_pipe_prefix(pipes@, id@, i as int + 1);
                }
                return Ok(&pipes[i]);
            }
            i = i + 1;
        }
        assert(pipes@.subrange(0, pipes@.len() as int) =~= pipes@);
        Err(no_result("Can't get tag by id"))
    }
}

/// Lookups over the stored pipe types.
pub struct PipeTypeRepository {}

impl PipeTypeRepository {
    /// The pipe type stored under `id`: an error when `id` names another
    /// table or no pipe type has that key.
    pub fn select_by_id<'a>(types: &'a Vec<PipeType>, id: &ThingDerived) -> (r: Result<&'a PipeType, Error>)
        ensures
            id.tb@ != "PipeType"@ ==> (r matches Err(e) && e is Generic),
            id.tb@ == "PipeType"@ ==> match r {
                Ok(p) => find_pipe_type(types@, id@) == Some(*p),
                Err(e) => find_pipe_type(types@, id@) is None && e is SurrealDbNoResult,
            },
    {
        match check_table(id, "PipeType") {
            Err(e) => return Err(e),
            Ok(()) => {},
        }
        let mut i: usize = 0;
        while i < types.len()
            invariant
                i <= types@.len(),
                id.tb@ == "PipeType"@,
                find_pipe_type(types@.subrange(0, i as int), id@) is None,
            decreases types@.len() - i,
        {
            assert(types@.subrange(0, i + 1).drop_last() =~= types@.subrange(0, i as int));
            let hit = match &types[i].id {
                Some(k) => k.same_as(id),
                None => false,
            };
            if hit {
                proof {
                    lemma_find_pipe_type_prefix(types@, id@, i as int + 1);
                }
                return Ok(&types[i]);
            }
            i = i + 1;
        }
        assert(types@.subrange(0, types@.len() as int) =~= types@);
        Err(no_result("Can't get tag by id"))
    }
}

/// Operations on pipes.
pub struct PipeUseCases {}

impl PipeUseCases {
    /// Offset and page size of a listing of pipes: the given ones, else
    /// offset 10 and `DEFAULT_LIMIT` per page.
    pub fn list_window(offset: Option<usize>, limit: Option<usize>) -> (r: (usize, usize))
        ensures
            r.0 == match offset {
                Some(o) => o,
                None => 10usize,
            },
            r.1 == match limit {
                Some(l) => l,
                None => DEFAULT_LIMIT,
            },
    {
        window(offset, limit, 10)
    }
}

/// Operations on pipe types.
pub struct PipeTypeUseCases {}

impl PipeTypeUseCases {
    /// Offset and page size of a listing of pipe types: the given ones, else
    /// offset 10 and `DEFAULT_LIMIT` per page.
    pub fn list_window(offset: Option<usize>, limit: Option<usize>) -> (r: (usize, usize))
        ensures
            r.0 == match offset {
                Some(o) => o,
                None => 10usize,
            },
            r.1 == match limit {
                Some(l) => l,
                None => DEFAULT_LIMIT,
            },
    {
        window(offset, limit, 10)
    }
}

/// Lookups over the stored units of measure.
pub struct MeasureUnitsRepository {}

impl MeasureUnitsRepository {
    /// A lookup by reference reads units of measure only: an error for a reference
    /// into another table.
    pub fn check_id(id: &ThingDerived) -> (r: Result<(), Error>)
        ensures
            r is Ok <==> id.tb@ == "MeasureUnits"@,
            r matches Err(e) ==> e is Generic,
    {
        check_table(id, "MeasureUnits")
    }
}

/// Operations on units of measure.
pub struct MeasureUnitsUseCases {}

impl MeasureUnitsUseCases {
    /// Offset and page size of a listing of units of measure: the given ones, else
    /// offset 10 and `DEFAULT_LIMIT` per page.
    pub fn list_window(offset: Option<usize>, limit: Option<usize>) -> (r: (usize, usize))
        ensures
            r.0 == match offset {
                Some(o) => o,
                None => 10usize,
            },
            r.1 == match limit {
                Some(l) => l,
                None => DEFAULT_LIMIT,
            },
    {
        window(offset, limit, 10)
    }
}

/// Lookups over the stored machines.
pub struct MachineryRepository {}

impl MachineryRepository {
    /// A lookup by reference reads machines only: an error for a reference
    /// into another table.
    pub fn check_id(id: &ThingDerived) -> (r: Result<(), Error>)
        ensures
            r is Ok <==> id.tb@ == "Machinery"@,
            r matches Err(e) ==> e is Generic,
    {
        check_table(id, "Machinery")
    }
}

/// Operations on machines.
pub struct MachineryUseCases {}

impl MachineryUseCases {
    /// Offset and page size of a listing of machines: the given ones, else
    /// offset 10 and `DEFAULT_LIMIT` per page.
    pub fn list_window(offset: Option<usize>, limit: Option<usize>) -> (r: (usize, usize))
        ensures
            r.0 == match offset {
                Some(o) => o,
                None => 10usize,
            },
            r.1 == match limit {
                Some(l) => l,
                None => DEFAULT_LIMIT,
            },
    {
        window(offset, limit, 10)
    }
}

/// Lookups over the stored machine types.
pub struct MachineryTypeRepository {}

impl MachineryTypeRepository {
    /// A lookup by reference reads machine types only: an error for a reference
    /// into another table.
    pub fn check_id(id: &ThingDerived) -> (r: Result<(), Error>)
        ensures
            r is Ok <==> id.tb@ == "MachineryType"@,
            r matches Err(e) ==> e is Generic,
    {
        check_table(id, "MachineryType")
    }
}

/// Operations on machine types.
pub struct MachineryTypeUseCases {}

impl MachineryTypeUseCases {
    /// Offset and page size of a listing of machine types: the given ones, else
    /// offset 10 and `DEFAULT_LIMIT` per page.
    pub fn list_window(offset: Option<usize>, limit: Option<usize>) -> (r: (usize, usize))
        ensures
            r.0 == match offset {
                Some(o) => o,
                None => 10usize,
            },
            r.1 == match limit {
                Some(l) => l,
                None => DEFAULT_LIMIT,
            },
    {
        window(offset, limit, 10)
    }
}

/// Lookups over the stored links between pipes.
pub struct PipeToRepository {}

impl PipeToRepository {
    /// A lookup by reference reads links between pipes only: an error for a reference
    /// into another table.
    pub fn check_id(id: &ThingDerived) -> (r: Result<(), Error>)
        ensures
            r is Ok <==> id.tb@ == "PipeTo"@,
            r matches Err(e) ==> e is Generic,
    {
        check_table(id, "PipeTo")
    }
}

/// Operations on links between pipes.
pub struct PipeToUseCases {}

impl PipeToUseCases {
    /// Offset and page size of a listing of links between pipes: the given ones, else
    /// offset 10 and `DEFAULT_LIMIT` per page.
    pub fn list_window(offset: Option<usize>, limit: Option<usize>) -> (r: (usize, usize))
        ensures
            r.0 == match offset {
                Some(o) => o,
                None => 10usize,
            },
            r.1 == match limit {
                Some(l) => l,
                None => DEFAULT_LIMIT,
            },
    {
        window(offset, limit, 10)
    }
}

/// Lookups over the stored raw materials.
pub struct RawMaterialRepository {}

impl RawMaterialRepository {
    /// A lookup by reference reads raw materials only: an error for a reference
    /// into another table.
    pub fn check_id(id: &ThingDerived) -> (r: Result<(), Error>)
        ensures
            r is Ok <==> id.tb@ == "RawMaterial"@,
            r matches Err(e) ==> e is Generic,
    {
        check_table(id, "RawMaterial")
    }
}

/// Operations on raw materials.
pub struct RawMaterialUseCases {}

impl RawMaterialUseCases {
    /// Offset and page size of a listing of raw materials: the given ones, else
    /// offset 10 and `DEFAULT_LIMIT` per page.
    pub fn list_window(offset: Option<usize>, limit: Option<usize>) -> (r: (usize, usize))
        ensures
            r.0 == match offset {
                Some(o) => o,
                None => 10usize,
            },
            r.1 == match limit {
                Some(l) => l,
                None => DEFAULT_LIMIT,
            },
    {
        window(offset, limit, 10)
    }
}

} // verus!
