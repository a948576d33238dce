//! Sales and production plans, one per calendar day.
use vstd::prelude::*;
use crate::datetime::DateTimeDerived;
use crate::decimal::DecimalValue;
use crate::error::Error;
use crate::repository::{window, DEFAULT_LIMIT};
use crate::thing::{key_of, ThingDerived};

verus! {

/// The amount planned to be sold on the day of `date`.
#[derive(Clone, Debug)]
pub struct SalesPlanPerDay {
    pub id: Option<ThingDerived>,
    pub amount: DecimalValue,
    pub units: ThingDerived,
    pub date: DateTimeDerived,
}

/// The amount planned to be produced on the day of `date`.
#[derive(Clone, Debug)]
pub struct ProductionPlanPerDay {
    pub id: Option<ThingDerived>,
    pub amount: DecimalValue,
    pub units: ThingDerived,
    pub date: DateTimeDerived,
}

impl SalesPlanPerDay {
    /// The key under which this plan is stored: a failure when it has none.
    pub fn thing(&self) -> (r: Result<ThingDerived, Error>)
        ensures
            match self.id {
                Some(k) => r == Ok::<ThingDerived, Error>(k),
                None => r matches Err(e) && e is Generic,
            },
    {
        key_of(&self.id)
    }

    /// A copy of this plan.
    pub fn duplicate(&self) -> (r: SalesPlanPerDay)
        ensures
            r == *self,
    {
        let id = match &self.id {
            Some(t) => Some(t.duplicate()),
            None => None,
        };
        SalesPlanPerDay { id, amount: self.amount, units: self.units.duplicate(), date: self.date }
    }
}

/// The first sales plan among `plans` for `day`.
pub open spec fn first_sales_plan(plans: Seq<SalesPlanPerDay>, day: int) -> Option<SalesPlanPerDay>
    decreases plans.len(),
{
    if plans.len() == 0 {
        None
    } else {
        match first_sales_plan(plans.drop_last(), day) {
            Some(p) => Some(p),
            None => if plans.last().date.day_spec() == day {
                Some(plans.last())
            } else {
                None
            },
        }
    }
}

impl ProductionPlanPerDay {
    /// The key under which this plan is stored: a failure when it has none.
    pub fn thing(&self) -> (r: Result<ThingDerived, Error>)
        ensures
            match self.id {
                Some(k) => r == Ok::<ThingDerived, Error>(k),
                None => r matches Err(e) && e is Generic,
            },
    {
        key_of(&self.id)
    }

    /// A copy of this plan.
    pub fn duplicate(&self) -> (r: ProductionPlanPerDay)
        ensures
            r == *self,
    {
        let id = match &self.id {
            Some(t) => Some(t.duplicate()),
            None => None,
        };
        ProductionPlanPerDay { id, amount: self.amount, units: self.units.duplicate(), date: self.date }
    }
}

/// The first production plan among `plans` for `day`.
pub open spec fn first_production_plan(plans: Seq<ProductionPlanPerDay>, day: int) -> Option<ProductionPlanPerDay>
    decreases plans.len(),
{
    if plans.len() == 0 {
        None
    } else {
        match first_production_plan(plans.drop_last(), day) {
            Some(p) => Some(p),
            None => if plans.last().date.day_spec() == day {
                Some(plans.last())
            } else {
                None
            },
        }
    }
}

/// Lookups over the stored sales plans.
pub struct SalesPlandPerDayRepository {}

impl SalesPlandPerDayRepository {
    /// The sales plan for the day of `date`, if there is one.
    pub fn select_by_date(plans: &Vec<SalesPlanPerDay>, date: DateTimeDerived) -> (r: Option<&SalesPlanPerDay>)
        ensures
            match r {
                Some(p) => first_sales_plan(plans@, date.day_spec()) == Some(*p),
                None => first_sales_plan(plans@, date.day_spec()) is None,
            },
    {
        let day = date.day();
        let mut i: usize = 0;
        while i < plans.len()
            invariant
                i <= plans@.len(),
                day == date.day_spec(),
                first_sales_plan(plans@.subrange(0, i as int), day as int) is None,
            decreases plans@.len() - i,
        {
            assert(plans@.subrange(0, i + 1).drop_last() =~= plans@.subrange(0, i as int));
            if plans[i].date.day() == day {
                proof {
                    lemma_first_sales_plan_prefix(plans@, day as int, i as int + 1);
                }
                return Some(&plans[i]);
            }
            i = i + 1;
        }
        assert(plans@.subrange(0, plans@.len() as int) =~= plans@);
        None
    }

}

/// Once a prefix holds the first plan for `day`, longer prefixes give the same.
proof fn lemma_first_sales_plan_prefix(plans: Seq<SalesPlanPerDay>, day: int, k: int)
    requires
        0 < k <= plans.len(),
        first_sales_plan(plans.subrange(0, k), day) is Some,
    ensures
        first_sales_plan(plans, day) == first_sales_plan(plans.subrange(0, k), day),
    decreases plans.len() - k,
{
    if k < plans.len() {
        assert(plans.subrange(0, k + 1).drop_last() =~= plans.subrange(0, k));
        lemma_first_sales_plan_prefix(plans, day, k + 1);
    } else {
        assert(plans.subrange(0, k) =~= plans);
    }
}

/// Once a prefix holds the first plan for `day`, longer prefixes give the same.
proof fn lemma_first_production_plan_prefix(plans: Seq<ProductionPlanPerDay>, day: int, k: int)
    requires
        0 < k <= plans.len(),
        first_production_plan(plans.subrange(0, k), day) is Some,
    ensures
        first_production_plan(plans, day) == first_production_plan(plans.subrange(0, k), day),
    decreases plans.len() - k,
{
    if k < plans.len() {
        assert(plans.subrange(0, k + 1).drop_last() =~= plans.subrange(0, k));
        lemma_first_production_plan_prefix(plans, day, k + 1);
    } else {
        assert(plans.subrange(0, k) =~= plans);
    }
}

/// Lookups over the stored production plans.
pub struct ProductionPlandPerDayRepository {}

impl ProductionPlandPerDayRepository {
    /// The production plan for the day of `date`, if there is one.
    pub fn select_by_date(plans: &Vec<ProductionPlanPerDay>, date: DateTimeDerived) -> (r: Option<&ProductionPlanPerDay>)
        ensures
            match r {
                Some(p) => first_production_plan(plans@, date.day_spec()) == Some(*p),
                None => first_production_plan(plans@, date.day_spec()) is None,
            },
    {
        let day = date.day();
        let mut i: usize = 0;
        while i < plans.len()
            invariant
                i <= plans@.len(),
                day == date.day_spec(),
                first_production_plan(plans@.subrange(0, i as int), day as int) is None,
            decreases plans@.len() - i,
        {
            assert(plans@.subrange(0, i + 1).drop_last() =~= plans@.subrange(0, i as int));
            if plans[i].date.day() == day {
                proof {
                    lemma_first_production_plan_prefix(plans@, day as int, i as int + 1);
                }
                return Some(&plans[i]);
            }
            i = i + 1;
        }
        assert(plans@.subrange(0, plans@.len() as int) =~= plans@);
        None
    }
}

/// Operations on sales plans.
pub struct SalesPlanPerDayUnitsUseCases {}

impl SalesPlanPerDayUnitsUseCases {
    /// Offset and page size of a listing of sales plans: the given ones, else
    /// offset 10 and `DEFAULT_LIMIT` per page.
    pub fn list_window(offset: Option<usize>, limit: Option<usize>) -> (r: (usize, usize))
        ensures
            r.0 == match offset {
                Some(o) => o,
                None => 10usize,
            },
            r.1 == match limit {
                Some(l) => l,
                None => DEFAULT_LIMIT,
            },
    {
        window(offset, limit, 10)
    }
}

/// Operations on production plans.
pub struct ProductionPlanPerDayUseCases {}

impl ProductionPlanPerDayUseCases {
    /// Offset and page size of a listing of production plans: the given ones, else
    /// offset 10 and `DEFAULT_LIMIT` per page.
    pub fn list_window(offset: Option<usize>, limit: Option<usize>) -> (r: (usize, usize))
        ensures
            r.0 == match offset {
                Some(o) => o,
                None => 10usize,
            },
            r.1 == match limit {
                Some(l) => l,
                None => DEFAULT_LIMIT,
            },
    {
        window(offset, limit, 10)
    }
}

} // verus!
