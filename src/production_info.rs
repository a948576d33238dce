//! The daily production record: its lazy creation once the day's plans and
//! line are known, and the day's produced volume, computed on every read.
use vstd::prelude::*;
use crate::catalog::{find_pipe, find_pipe_type, keyed, Pipe, PipeRepository, PipeType, PipeTypeRepository};
use crate::datetime::DateTimeDerived;
use crate::decimal::{opt_view, DecimalValue};
use crate::error::{missing_thing, no_result, Error};
use crate::flow::{integrate, integrate_spec};
use crate::pipe_stats::{
    latest_before, lemma_readings_on_day_ordered, rates_representable, reading_before, readings_on_day,
    PipeStats, PipeStatsRepository,
};
use crate::plans::{
    first_production_plan, first_sales_plan, ProductionPlanPerDay, ProductionPlandPerDayRepository,
    SalesPlanPerDay, SalesPlandPerDayRepository,
};
use crate::repository::{check_table, window, DEFAULT_LIMIT};
use crate::thing::{key_of, ThingDerived};

verus! {

/// The record of one day's production: which sales plan, production plan
/// and final line applied, and the unit the line measures in.
#[derive(Clone, Debug)]
pub struct ProductionInfo {
    pub id: Option<ThingDerived>,
    pub sales_plan: ThingDerived,
    pub production_plan: ThingDerived,
    pub final_pipe: ThingDerived,
    pub measure_units: ThingDerived,
    pub date: DateTimeDerived,
}

/// The fields of a production record about to be stored.
#[derive(Clone, Debug)]
pub struct CreateProductionInfoInput {
    pub sales_plan: ThingDerived,
    pub production_plan: ThingDerived,
    pub final_pipe: ThingDerived,
    pub measure_units: ThingDerived,
    pub date: DateTimeDerived,
}

/// The volume that line `pipe` produced on `day`, given all stored readings.
pub open spec fn production_volume(records: Seq<PipeStats>, pipe: (Seq<char>, Seq<char>), day: int) -> Option<(int, int)> {
    integrate_spec(readings_on_day(records, pipe, day), latest_before(records, pipe, day))
}

/// The latest earlier reading is one of the stored readings.
proof fn lemma_latest_before_stored(records: Seq<PipeStats>, pipe: (Seq<char>, Seq<char>), day: int)
    ensures
        latest_before(records, pipe, day) matches Some(p) ==> records.contains(p),
    decreases records.len(),
{
    if records.len() > 0 {
        let t = records.drop_last();
        lemma_latest_before_stored(t, pipe, day);
        if let Some(p) = latest_before(t, pipe, day) {
            let k = choose|k: int| 0 <= k < t.len() && t[k] == p;
            assert(records[k] == p);
        }
        assert(records[records.len() - 1] == records.last());
    }
}

impl ProductionInfo {
    /// The key under which this record is stored: a failure when it has none.
    pub fn thing(&self) -> (r: Result<ThingDerived, Error>)
        ensures
            match self.id {
                Some(k) => r == Ok::<ThingDerived, Error>(k),
                None => r matches Err(e) && e is Generic,
            },
    {
        key_of(&self.id)
    }

    /// A copy of this record.
    pub fn duplicate(&self) -> (r: ProductionInfo)
        ensures
            r == *self,
    {
        let id = match &self.id {
            Some(t) => Some(t.duplicate()),
            None => None,
        };
        ProductionInfo {
            id,
            sales_plan: self.sales_plan.duplicate(),
            production_plan: self.production_plan.duplicate(),
            final_pipe: self.final_pipe.duplicate(),
            measure_units: self.measure_units.duplicate(),
            date: self.date,
        }
    }

    /// The volume the record's line produced on the record's day, from the
    /// stored readings: the day's readings and the latest reading of an
    /// earlier day. `None` when a decimal operation overflows.
    pub fn production_fact(&self, records: &Vec<PipeStats>) -> (r: Option<DecimalValue>)
        requires
            rates_representable(records@),
        ensures
            opt_view(r) == production_volume(records@, self.final_pipe@, self.date.day_spec()),
    {
        let same_day = PipeStatsRepository::select_by_pipe_and_date(records, &self.final_pipe, self.date);
        let previous = PipeStatsRepository::select_previous_reading_by_pipe_and_date(records, &self.final_pipe, self.date);
        proof {
            lemma_readings_on_day_ordered(records@, self.final_pipe@, self.date.day_spec());
            lemma_latest_before_stored(records@, self.final_pipe@, self.date.day_spec());
            if previous is Some {
                let p = previous->0;
                let k = choose|k: int| 0 <= k < records@.len() && records@[k] == p;
                assert(records@[k].flow.wf());
            }
        }
        integrate(self.date.day(), &same_day, &previous)
    }
}

/// A reading stored for a day after `day` leaves the volume of `day` as it
/// was, for every line.
pub proof fn lemma_later_reading_keeps_volume(
    records: Seq<PipeStats>,
    added: PipeStats,
    pipe: (Seq<char>, Seq<char>),
    day: int,
)
    requires
        added.date.day_spec() > day,
    ensures
        production_volume(records.push(added), pipe, day) == production_volume(records, pipe, day),
{
    assert(records.push(added).drop_last() =~= records);
    assert(!reading_before(added, pipe, day));
}

/// A reading of the line stored for `day` itself is among the readings that
/// the volume of `day` is computed from.
pub proof fn lemma_same_day_reading_is_used(
    records: Seq<PipeStats>,
    added: PipeStats,
    day: int,
)
    requires
        added.date.day_spec() == day,
    ensures
        readings_on_day(records.push(added), added.pipe@, day).contains(added),
{
    let s = records.push(added);
    assert(s.drop_last() =~= records);
    assert(s.last() == added);
    lemma_insert_contains(readings_on_day(records, added.pipe@, day), added);
}

/// The inserted reading is in the result.
proof fn lemma_insert_contains(s: Seq<PipeStats>, x: PipeStats)
    ensures
        crate::pipe_stats::insert_by_instant(s, x).contains(x),
    decreases s.len(),
{
    let u = crate::pipe_stats::insert_by_instant(s, x);
    if s.len() == 0 {
        assert(u[0] == x);
    } else if s.last().date.0 <= x.date.0 {
        assert(u[u.len() - 1] == x);
    } else {
        lemma_insert_contains(s.drop_last(), x);
        let v = crate::pipe_stats::insert_by_instant(s.drop_last(), x);
        let k = choose|k: int| 0 <= k < v.len() && v[k] == x;
        assert(u[k] == x);
    }
}

/// The first record among `facts` for `day`.
pub open spec fn first_fact(facts: Seq<ProductionInfo>, day: int) -> Option<ProductionInfo>
    decreases facts.len(),
{
    if facts.len() == 0 {
        None
    } else {
        match first_fact(facts.drop_last(), day) {
            Some(f) => Some(f),
            None => if facts.last().date.day_spec() == day {
                Some(facts.last())
            } else {
                None
            },
        }
    }
}

/// Once a prefix holds the first record for `day`, longer prefixes give the same.
proof fn lemma_first_fact_prefix(facts: Seq<ProductionInfo>, day: int, k: int)
    requires
        0 < k <= facts.len(),
        first_fact(facts.subrange(0, k), day) is Some,
    ensures
        first_fact(facts, day) == first_fact(facts.subrange(0, k), day),
    decreases facts.len() - k,
{
    if k < facts.len() {
        assert(facts.subrange(0, k + 1).drop_last() =~= facts.subrange(0, k));
        lemma_first_fact_prefix(facts, day, k + 1);
    } else {
        assert(facts.subrange(0, k) =~= facts);
    }
}

/// The first record among `facts` stored under `id`.
pub open spec fn find_fact(facts: Seq<ProductionInfo>, id: (Seq<char>, Seq<char>)) -> Option<ProductionInfo>
    decreases facts.len(),
{
    if facts.len() == 0 {
        None
    } else {
        match find_fact(facts.drop_last(), id) {
            Some(f) => Some(f),
            None => if keyed(facts.last().id, id) {
                Some(facts.last())
            } else {
                None
            },
        }
    }
}

/// Once a prefix holds the record, longer prefixes give the same.
proof fn lemma_find_fact_prefix(facts: Seq<ProductionInfo>, id: (Seq<char>, Seq<char>), k: int)
    requires
        0 < k <= facts.len(),
        find_fact(facts.subrange(0, k), id) is Some,
    ensures
        find_fact(facts, id) == find_fact(facts.subrange(0, k), id),
    decreases facts.len() - k,
{
    if k < facts.len() {
        assert(facts.subrange(0, k + 1).drop_last() =~= facts.subrange(0, k));
        lemma_find_fact_prefix(facts, id, k + 1);
    } else {
        assert(facts.subrange(0, k) =~= facts);
    }
}

/// Lookups over the stored production records.
pub struct ProductionInfoRepository {}

impl ProductionInfoRepository {
    /// The production record for the day of `date`, if there is one.
    pub fn select_by_date(facts: &Vec<ProductionInfo>, date: DateTimeDerived) -> (r: Option<&ProductionInfo>)
        ensures
            match r {
                Some(f) => first_fact(facts@, date.day_spec()) == Some(*f),
                None => first_fact(facts@, date.day_spec()) is None,
            },
    {
        let day = date.day();
        let mut i: usize = 0;
        while i < facts.len()
            invariant
                i <= facts@.len(),
                day == date.day_spec(),
                first_fact(facts@.subrange(0, i as int), day as int) is None,
            decreases facts@.len() - i,
        {
            assert(facts@.subrange(0, i + 1).drop_last() =~= facts@.subrange(0, i as int));
            if facts[i].date.day() == day {
                proof {
                    lemma_first_fact_prefix(facts@, day as int, i as int + 1);
                }
                return Some(&facts[i]);
            }
            i = i + 1;
        }
        assert(facts@.subrange(0, facts@.len() as int) =~= facts@);
        None
    }

    /// The production record stored under `id`: an error when `id` names
    /// another table or no record has that key.
    pub fn select_by_id<'a>(facts: &'a Vec<ProductionInfo>, id: &ThingDerived) -> (r: Result<&'a ProductionInfo, Error>)
        ensures
            id.tb@ != "ProductionInfo"@ ==> (r matches Err(e) && e is Generic),
            id.tb@ == "ProductionInfo"@ ==> match r {
                Ok(f) => find_fact(facts@, id@) == Some(*f),
                Err(e) => find_fact(facts@, id@) is None && e is SurrealDbNoResult,
            },
    {
        match check_table(id, "ProductionInfo") {
            Err(e) => return Err(e),
            Ok(()) => {},
        }
        let mut i: usize = 0;
        while i < facts.len()
            invariant
                i <= facts@.len(),
                id.tb@ == "ProductionInfo"@,
                find_fact(facts@.subrange(0, i as int), id@) is None,
            decreases facts@.len() - i,
        {
            assert(facts@.subrange(0, i + 1).drop_last() =~= facts@.subrange(0, i as int));
            let hit = match &facts[i].id {
                Some(k) => k.same_as(id),
                None => false,
            };
            if hit {
                proof {
                    lemma_find_fact_prefix(facts@, id@, i as int + 1);
                }
                return Ok(&facts[i]);
            }
            i = i + 1;
        }
        assert(facts@.subrange(0, facts@.len() as int) =~= facts@);
        Err(no_result("Can't get tag by id"))
    }

    /// Stores a new record with the given fields under `key`, and returns it.
    pub fn create(facts: &mut Vec<ProductionInfo>, input: CreateProductionInfoInput, key: ThingDerived) -> (r: ProductionInfo)
        ensures
            r == (ProductionInfo {
                id: Some(key),
                sales_plan: input.sales_plan,
                production_plan: input.production_plan,
                final_pipe: input.final_pipe,
                measure_units: input.measure_units,
                date: input.date,
            }),
            final(facts)@ == old(facts)@.push(r),
    {
        let r = ProductionInfo {
            id: Some(key),
            sales_plan: input.sales_plan,
            production_plan: input.production_plan,
            final_pipe: input.final_pipe,
            measure_units: input.measure_units,
            date: input.date,
        };
        facts.push(r.duplicate());
        r
    }
}

/// Where a get-or-create of the day's production record stands, between two
/// lookups in the store.
pub enum SelectCreate {
    /// Waiting for the record already stored for the day, if any.
    AwaitExisting { date: DateTimeDerived, line: Option<ThingDerived> },
    /// Waiting for the day's sales plan.
    AwaitSalesPlan { date: DateTimeDerived, line: ThingDerived },
    /// Waiting for the day's production plan.
    AwaitProductionPlan { date: DateTimeDerived, line: ThingDerived, sales_plan: ThingDerived },
    /// Waiting for the unit that the line's type measures in.
    AwaitMeasureUnit {
        date: DateTimeDerived,
        line: ThingDerived,
        sales_plan: ThingDerived,
        production_plan: ThingDerived,
    },
    /// Waiting for the store to hand back the new record.
    AwaitCreated,
    /// Done: the last action said what to return.
    Finished,
}

/// What the caller does next for a get-or-create.
pub enum SelectCreateAction {
    /// Look up the record stored for the day of the date.
    FindExisting(DateTimeDerived),
    /// Look up the sales plan for the day of the date.
    FindSalesPlan(DateTimeDerived),
    /// Look up the production plan for the day of the date.
    FindProductionPlan(DateTimeDerived),
    /// Look up the line, then its type, and report the type's unit.
    ResolveMeasureUnit(ThingDerived),
    /// Store a new record with these fields.
    Create(CreateProductionInfoInput),
    /// Finish with this result.
    Return(Option<ProductionInfo>),
    /// Finish with this failure.
    Fail(Error),
}

/// What a lookup or the store answered.
pub enum SelectCreateEvent {
    /// The record stored for the day, if any.
    Existing(Option<ProductionInfo>),
    /// The sales plan for the day, if any.
    SalesPlan(Option<SalesPlanPerDay>),
    /// The production plan for the day, if any.
    ProductionPlan(Option<ProductionPlanPerDay>),
    /// The unit that the line's type measures in.
    MeasureUnit(ThingDerived),
    /// The record as the store now holds it.
    Created(ProductionInfo),
}

/// The event answers the lookup that the state waits for.
pub open spec fn answers(s: SelectCreate, e: SelectCreateEvent) -> bool {
    match s {
        SelectCreate::AwaitExisting { .. } => e is Existing,
        SelectCreate::AwaitSalesPlan { .. } => e is SalesPlan,
        SelectCreate::AwaitProductionPlan { .. } => e is ProductionPlan,
        SelectCreate::AwaitMeasureUnit { .. } => e is MeasureUnit,
        SelectCreate::AwaitCreated => e is Created,
        SelectCreate::Finished => false,
    }
}

/// One step of the get-or-create: from state `s` and answer `e` to state
/// `t` and action `a`. A stored record ends the search; a missing line or
/// plan ends it with nothing; a plan without a key is a failure; once both
/// plans and the unit are known, the record is created and returned.
pub open spec fn select_create_step(s: SelectCreate, e: SelectCreateEvent, t: SelectCreate, a: SelectCreateAction) -> bool {
    match (s, e) {
        (SelectCreate::AwaitExisting { date, line }, SelectCreateEvent::Existing(found)) => match found {
            Some(f) => t is Finished && a == SelectCreateAction::Return(Some(f)),
            None => match line {
                None => t is Finished && a == SelectCreateAction::Return(None),
                Some(l) => t == (SelectCreate::AwaitSalesPlan { date, line: l })
                    && a == SelectCreateAction::FindSalesPlan(date),
            },
        },
        (SelectCreate::AwaitSalesPlan { date, line }, SelectCreateEvent::SalesPlan(plan)) => match plan {
            None => t is Finished && a == SelectCreateAction::Return(None),
            Some(p) => match p.id {
                None => t is Finished && a is Fail,
                Some(k) => t == (SelectCreate::AwaitProductionPlan { date, line, sales_plan: k })
                    && a == SelectCreateAction::FindProductionPlan(date),
            },
        },
        (SelectCreate::AwaitProductionPlan { date, line, sales_plan }, SelectCreateEvent::ProductionPlan(plan)) => match plan {
            None => t is Finished && a == SelectCreateAction::Return(None),
            Some(p) => match p.id {
                None => t is Finished && a is Fail,
                Some(k) => t == (SelectCreate::AwaitMeasureUnit { date, line, sales_plan, production_plan: k })
                    && a == SelectCreateAction::ResolveMeasureUnit(line),
            },
        },
        (SelectCreate::AwaitMeasureUnit { date, line, sales_plan, production_plan }, SelectCreateEvent::MeasureUnit(u)) => {
            t is AwaitCreated && a == SelectCreateAction::Create(
                CreateProductionInfoInput { sales_plan, production_plan, final_pipe: line, measure_units: u, date },
            )
        },
        (SelectCreate::AwaitCreated, SelectCreateEvent::Created(f)) => t is Finished && a == SelectCreateAction::Return(Some(f)),
        _ => false,
    }
}

impl SelectCreate {
    /// Begins a get-or-create of the record for the day of `date`, with the
    /// final line if it is known: first look for a stored record.
    pub fn start(date: DateTimeDerived, line: Option<ThingDerived>) -> (r: (SelectCreate, SelectCreateAction))
        ensures
            r.0 == (SelectCreate::AwaitExisting { date, line }),
            r.1 == SelectCreateAction::FindExisting(date),
    {
        (SelectCreate::AwaitExisting { date, line }, SelectCreateAction::FindExisting(date))
    }

    /// Takes the answer to the last action and says what to do next.
    pub fn step(self, e: SelectCreateEvent) -> (r: (SelectCreate, SelectCreateAction))
        requires
            answers(self, e),
        ensures
            select_create_step(self, e, r.0, r.1),
    {
        match (self, e) {
            (SelectCreate::AwaitExisting { date, line }, SelectCreateEvent::Existing(found)) => match found {
                Some(f) => (SelectCreate::Finished, SelectCreateAction::Return(Some(f))),
                None => match line {
                    None => (SelectCreate::Finished, SelectCreateAction::Return(None)),
                    Some(l) => (SelectCreate::AwaitSalesPlan { date, line: l }, SelectCreateAction::FindSalesPlan(date)),
                },
            },
            (SelectCreate::AwaitSalesPlan { date, line }, SelectCreateEvent::SalesPlan(plan)) => match plan {
                None => (SelectCreate::Finished, SelectCreateAction::Return(None)),
                Some(p) => match p.id {
                    None => (SelectCreate::Finished, SelectCreateAction::Fail(missing_thing())),
                    Some(k) => (
                        SelectCreate::AwaitProductionPlan { date, line, sales_plan: k },
                        SelectCreateAction::FindProductionPlan(date),
                    ),
                },
            },
            (SelectCreate::AwaitProductionPlan { date, line, sales_plan }, SelectCreateEvent::ProductionPlan(plan)) => match plan {
                None => (SelectCreate::Finished, SelectCreateAction::Return(None)),
                Some(p) => match p.id {
                    None => (SelectCreate::Finished, SelectCreateAction::Fail(missing_thing())),
                    Some(k) => {
                        let target = line.duplicate();
                        (
                            SelectCreate::AwaitMeasureUnit { date, line, sales_plan, production_plan: k },
                            SelectCreateAction::ResolveMeasureUnit(target),
                        )
                    },
                },
            },
            (SelectCreate::AwaitMeasureUnit { date, line, sales_plan, production_plan }, SelectCreateEvent::MeasureUnit(u)) => (
                SelectCreate::AwaitCreated,
                SelectCreateAction::Create(
                    CreateProductionInfoInput { sales_plan, production_plan, final_pipe: line, measure_units: u, date },
                ),
            ),
            (SelectCreate::AwaitCreated, SelectCreateEvent::Created(f)) => (SelectCreate::Finished, SelectCreateAction::Return(Some(f))),
            (s, _) => (s, SelectCreateAction::Return(None)),
        }
    }
}

/// What a store holds, as far as the daily record is concerned.
pub struct StoreModel {
    pub facts: Seq<ProductionInfo>,
    pub sales_plans: Seq<SalesPlanPerDay>,
    pub production_plans: Seq<ProductionPlanPerDay>,
    pub pipes: Seq<Pipe>,
    pub pipe_types: Seq<PipeType>,
    pub readings: Seq<PipeStats>,
}

/// The unit that line `line` measures in: the unit of the type of the pipe
/// stored under `line`.
pub open spec fn line_unit(m: StoreModel, line: ThingDerived) -> Option<ThingDerived> {
    if line.tb@ == "Pipe"@ {
        match find_pipe(m.pipes, line@) {
            Some(p) => if p.pipe_type.tb@ == "PipeType"@ {
                match find_pipe_type(m.pipe_types, p.pipe_type@) {
                    Some(t) => Some(t.units),
                    None => None,
                }
            } else {
                None
            },
            None => None,
        }
    } else {
        None
    }
}

/// The result of a get-or-create of the record for the day of `date` on a
/// store that holds `m`, where a new record is stored under `key`: `None`
/// for a failure, `Some(None)` when the record cannot be made yet.
pub open spec fn select_create_result(m: StoreModel, date: DateTimeDerived, line: Option<ThingDerived>, key: ThingDerived) -> Option<Option<ProductionInfo>> {
    let day = date.day_spec();
    match first_fact(m.facts, day) {
        Some(f) => Some(Some(f)),
        None => match line {
            None => Some(None),
            Some(l) => match first_sales_plan(m.sales_plans, day) {
                None => Some(None),
                Some(sp) => match sp.id {
                    None => None,
                    Some(sk) => match first_production_plan(m.production_plans, day) {
                        None => Some(None),
                        Some(pp) => match pp.id {
                            None => None,
                            Some(pk) => match line_unit(m, l) {
                                None => None,
                                Some(u) => Some(Some(ProductionInfo {
                                    id: Some(key),
                                    sales_plan: sk,
                                    production_plan: pk,
                                    final_pipe: l,
                                    measure_units: u,
                                    date,
                                })),
                            },
                        },
                    },
                },
            },
        },
    }
}

/// The stored records after the get-or-create: the new record added when one
/// was made.
pub open spec fn facts_after(m: StoreModel, date: DateTimeDerived, line: Option<ThingDerived>, key: ThingDerived) -> Seq<ProductionInfo> {
    match (first_fact(m.facts, date.day_spec()), select_create_result(m, date, line, key)) {
        (None, Some(Some(f))) => m.facts.push(f),
        _ => m.facts,
    }
}

/// `m` with its production records replaced by `facts`.
pub open spec fn with_facts(m: StoreModel, facts: Seq<ProductionInfo>) -> StoreModel {
    StoreModel { facts, ..m }
}

/// The records that a get-or-create reads and writes, held in memory.
pub struct ProductionStore {
    pub facts: Vec<ProductionInfo>,
    pub sales_plans: Vec<SalesPlanPerDay>,
    pub production_plans: Vec<ProductionPlanPerDay>,
    pub pipes: Vec<Pipe>,
    pub pipe_types: Vec<PipeType>,
    pub readings: Vec<PipeStats>,
}

impl View for ProductionStore {
    type V = StoreModel;

    open spec fn view(&self) -> StoreModel {
        StoreModel {
            facts: self.facts@,
            sales_plans: self.sales_plans@,
            production_plans: self.production_plans@,
            pipes: self.pipes@,
            pipe_types: self.pipe_types@,
            readings: self.readings@,
        }
    }
}

/// Operations on production records.
pub struct ProductionInfoUseCases {}

impl ProductionInfoUseCases {
    /// The volume produced on the day of the record stored under `fact`, by
    /// its line, from the stored readings; an error when there is no such
    /// record. `Ok(None)` when a decimal operation overflows.
    pub fn production_fact_quantity(store: &ProductionStore, fact: &ThingDerived) -> (r: Result<Option<DecimalValue>, Error>)
        requires
            rates_representable(store.readings@),
        ensures
            fact.tb@ == "ProductionInfo"@ ==> match find_fact(store.facts@, fact@) {
                Some(f) => r matches Ok(v) && opt_view(v) == production_volume(store.readings@, f.final_pipe@, f.date.day_spec()),
                None => r is Err,
            },
            fact.tb@ != "ProductionInfo"@ ==> r is Err,
    {
        match ProductionInfoRepository::select_by_id(&store.facts, fact) {
            Ok(f) => Ok(f.production_fact(&store.readings)),
            Err(e) => Err(e),
        }
    }

    /// Offset and page size of a listing of production records: the given
    /// ones, else offset 10 and `DEFAULT_LIMIT` per page.
    pub fn list_window(offset: Option<usize>, limit: Option<usize>) -> (r: (usize, usize))
        ensures
            r.0 == match offset {
                Some(o) => o,
                None => 10usize,
            },
            r.1 == match limit {
                Some(l) => l,
                None => DEFAULT_LIMIT,
            },
    {
        window(offset, limit, 10)
    }

    /// Returns the record stored for the day of `date`; else, when the final
    /// line is known and both plans for the day and the line's unit can be
    /// found, stores a new record under `key` and returns it; else `None`.
    pub fn select_create(
        store: &mut ProductionStore,
        date: DateTimeDerived,
        final_pipe: Option<ThingDerived>,
        key: ThingDerived,
    ) -> (r: Result<Option<ProductionInfo>, Error>)
        ensures
            match r {
                Ok(x) => select_create_result(old(store)@, date, final_pipe, key) == Some(x),
                Err(_) => select_create_result(old(store)@, date, final_pipe, key) is None,
            },
            final(store)@ == with_facts(old(store)@, facts_after(old(store)@, date, final_pipe, key)),
    {
        let (st, _) = SelectCreate::start(date, final_pipe);
        let existing = match ProductionInfoRepository::select_by_date(&store.facts, date) {
            Some(f) => Some(f.duplicate()),
            None => None,
        };
        let (st, act) = st.step(SelectCreateEvent::Existing(existing));
        match act {
            SelectCreateAction::Return(x) => {
                return Ok(x);
            },
            _ => {},
        }
        let sales = match SalesPlandPerDayRepository::select_by_date(&store.sales_plans, date) {
            Some(p) => Some(p.duplicate()),
            None => None,
        };
        let (st, act) = st.step(SelectCreateEvent::SalesPlan(sales));
        match act {
            SelectCreateAction::Return(x) => {
                return Ok(x);
            },
            SelectCreateAction::Fail(e) => {
                return Err(e);
            },
            _ => {},
        }
        let production = match ProductionPlandPerDayRepository::select_by_date(&store.production_plans, date) {
            Some(p) => Some(p.duplicate()),
            None => None,
        };
        let (st, act) = st.step(SelectCreateEvent::ProductionPlan(production));
        let line_ref = match act {
            SelectCreateAction::Return(x) => {
                return Ok(x);
            },
            SelectCreateAction::Fail(e) => {
                return Err(e);
            },
            SelectCreateAction::ResolveMeasureUnit(l) => l,
            _ => {
                return Err(missing_thing());
            },
        };
        let pipe = match PipeRepository::select_by_id(&store.pipes, &line_ref) {
            Ok(p) => p,
            Err(e) => {
                return Err(e);
            },
        };
        let pipe_type = match PipeTypeRepository::select_by_id(&store.pipe_types, &pipe.pipe_type) {
            Ok(t) => t,
            Err(e) => {
                return Err(e);
            },
        };
        let unit = pipe_type.units.duplicate();
        let (st, act) = st.step(SelectCreateEvent::MeasureUnit(unit));
        let input = match act {
            SelectCreateAction::Create(input) => input,
            _ => {
                return Err(missing_thing());
            },
        };
        let created = ProductionInfoRepository::create(&mut store.facts, input, key);
        let (_, act) = st.step(SelectCreateEvent::Created(created));
        match act {
            SelectCreateAction::Return(x) => Ok(x),
            _ => Err(missing_thing()),
        }
    }
}

/// A second get-or-create for the same day, after one that returned a
/// record, returns that same record and stores nothing more, whatever key it
/// would have used.
pub proof fn lemma_select_create_idempotent(
    m: StoreModel,
    date: DateTimeDerived,
    line: Option<ThingDerived>,
    key: ThingDerived,
    second_key: ThingDerived,
)
    requires
        select_create_result(m, date, line, key) matches Some(Some(_)),
    ensures
        select_create_result(with_facts(m, facts_after(m, date, line, key)), date, line, second_key)
            == select_create_result(m, date, line, key),
        facts_after(with_facts(m, facts_after(m, date, line, key)), date, line, second_key)
            == facts_after(m, date, line, key),
{
    let day = date.day_spec();
    let after = facts_after(m, date, line, key);
    if first_fact(m.facts, day) is None {
        let f = select_create_result(m, date, line, key)->0->0;
        assert(after.drop_last() =~= m.facts);
        assert(after.last() == f);
        assert(first_fact(after, day) == Some(f));
    }
}

/// Without a final line, a day that has no record yet gets none, whatever
/// plans there are.
pub proof fn lemma_no_line_no_record(m: StoreModel, date: DateTimeDerived, key: ThingDerived)
    requires
        first_fact(m.facts, date.day_spec()) is None,
    ensures
        select_create_result(m, date, None, key) == Some(None::<ProductionInfo>),
        facts_after(m, date, None, key) == m.facts,
{
}

/// With a final line, a day that has no record yet gets none while a plan
/// for the day is missing (a sales plan found without a key being a
/// failure instead).
pub proof fn lemma_missing_plan_no_record(m: StoreModel, date: DateTimeDerived, line: ThingDerived, key: ThingDerived)
    requires
        first_fact(m.facts, date.day_spec()) is None,
        first_sales_plan(m.sales_plans, date.day_spec()) is None
            || (first_production_plan(m.production_plans, date.day_spec()) is None
                && first_sales_plan(m.sales_plans, date.day_spec())->0.id is Some),
    ensures
        select_create_result(m, date, Some(line), key) == Some(None::<ProductionInfo>),
        facts_after(m, date, Some(line), key) == m.facts,
{
}

/// A day that has no record yet gets one only when both plans for the day
/// and the line's unit are found; the new record refers to exactly those.
pub proof fn lemma_record_needs_plans_and_unit(m: StoreModel, date: DateTimeDerived, line: Option<ThingDerived>, key: ThingDerived)
    requires
        first_fact(m.facts, date.day_spec()) is None,
        select_create_result(m, date, line, key) matches Some(Some(_)),
    ensures
        ({
            let f = select_create_result(m, date, line, key)->0->0;
            let day = date.day_spec();
            &&& line == Some(f.final_pipe)
            &&& first_sales_plan(m.sales_plans, day) matches Some(sp) && sp.id == Some(f.sales_plan)
            &&& first_production_plan(m.production_plans, day) matches Some(pp) && pp.id == Some(f.production_plan)
            &&& line_unit(m, f.final_pipe) == Some(f.measure_units)
            &&& f.date == date
            &&& f.id == Some(key)
            &&& facts_after(m, date, line, key) == m.facts.push(f)
        }),
{
}

} // verus!
