//! Time-weighted integration of flow-rate readings over one UTC day.
//!
//! A reading's rate holds from its instant up to the next reading of the day,
//! the last one up to the next midnight. The last reading of an earlier day,
//! when there is one, sets the rate from midnight up to the day's first
//! reading. Durations are turned into hours by decimal division by 3600.
use vstd::prelude::*;
use crate::datetime::{day_of, seconds_into_day, SECONDS_PER_DAY, SECONDS_PER_HOUR};
use crate::decimal::{
    checked_add, checked_div, checked_mul, decimal_product, decimal_quotient, decimal_sum,
    opt_view, DecimalValue,
};
use crate::pipe_stats::PipeStats;

verus! {

/// The readings all fall on `day`, carry a representable rate, and are
/// ordered by instant.
pub open spec fn readings_of_day(day: int, s: Seq<PipeStats>) -> bool {
    &&& forall|i: int| 0 <= i < s.len() ==> (#[trigger] s[i]).date.day_spec() == day
    &&& forall|i: int| 0 <= i < s.len() ==> (#[trigger] s[i]).flow.wf()
    &&& forall|i: int, j: int| 0 <= i < j < s.len() ==> s[i].date.0 <= s[j].date.0
}

/// A previous reading, if any, carries a representable rate.
pub open spec fn carry_ok(previous: Option<PipeStats>) -> bool {
    previous matches Some(p) ==> p.flow.wf()
}

/// `seconds` as a decimal number of hours.
pub open spec fn hours(seconds: int) -> Option<(int, int)> {
    decimal_quotient((seconds, 0), (SECONDS_PER_HOUR as int, 0))
}

/// Volume of `rate` held for `seconds`: the rate times the hours.
pub open spec fn volume(rate: (int, int), seconds: int) -> Option<(int, int)> {
    match hours(seconds) {
        Some(h) => decimal_product(rate, h),
        None => None,
    }
}

/// Decimal sum of two volumes, `None` once either is missing.
pub open spec fn add_volumes(a: Option<(int, int)>, b: Option<(int, int)>) -> Option<(int, int)> {
    match (a, b) {
        (Some(x), Some(y)) => decimal_sum(x, y),
        _ => None,
    }
}

/// How long the rate of reading `i` holds: up to the next reading, or up to
/// the next midnight for the last one.
pub open spec fn held_seconds(s: Seq<PipeStats>, i: int) -> int {
    if i + 1 < s.len() {
        s[i + 1].date.0 - s[i].date.0
    } else {
        SECONDS_PER_DAY - seconds_into_day(s[i].date.0 as int)
    }
}

/// `start` plus the volumes of the first `k` readings, added in order.
pub open spec fn accumulate(start: Option<(int, int)>, s: Seq<PipeStats>, k: int) -> Option<(int, int)>
    decreases k,
{
    if k <= 0 {
        start
    } else {
        add_volumes(accumulate(start, s, k - 1), volume(s[k - 1].flow@, held_seconds(s, k - 1)))
    }
}

/// Total of the held durations of the first `k` readings.
pub open spec fn elapsed_seconds(s: Seq<PipeStats>, k: int) -> int
    decreases k,
{
    if k <= 0 {
        0
    } else {
        elapsed_seconds(s, k - 1) + held_seconds(s, k - 1)
    }
}

/// The volume produced on a day with readings `s` and the last reading of an
/// earlier day `previous`.
pub open spec fn integrate_spec(s: Seq<PipeStats>, previous: Option<PipeStats>) -> Option<(int, int)> {
    if s.len() == 0 {
        match previous {
            None => Some((0, 0)),
            Some(p) => decimal_product(p.flow@, (24, 0)),
        }
    } else {
        let start = match previous {
            None => Some((0int, 0int)),
            Some(p) => volume(p.flow@, seconds_into_day(s[0].date.0 as int)),
        };
        accumulate(start, s, s.len() as int)
    }
}

/// Volume of `rate` held for `seconds`.
fn volume_for(rate: DecimalValue, seconds: i64) -> (r: Option<DecimalValue>)
    requires
        rate.wf(),
    ensures
        opt_view(r) == volume(rate@, seconds as int),
        r matches Some(v) ==> v.wf(),
{
    match checked_div(DecimalValue::from_integer(seconds), DecimalValue::from_integer(SECONDS_PER_HOUR)) {
        Some(h) => checked_mul(rate, h),
        None => None,
    }
}

/// The volume produced on `day`, from the day's readings in order of their
/// instants and the last reading of an earlier day, if any.
///
/// With no readings at all it is zero; with only an earlier reading, that
/// rate held for 24 hours. `None` when a decimal operation overflows.
pub fn integrate(day: i64, samples: &Vec<PipeStats>, previous: &Option<PipeStats>) -> (r: Option<DecimalValue>)
    requires
        readings_of_day(day as int, samples@),
        carry_ok(*previous),
    ensures
        opt_view(r) == integrate_spec(samples@, *previous),
        r matches Some(v) ==> v.wf(),
{
    let n = samples.len();
    if n == 0 {
        return match previous {
            None => Some(DecimalValue::zero()),
            Some(p) => checked_mul(p.flow, DecimalValue::from_integer(24)),
        };
    }
    let mut acc: Option<DecimalValue> = match previous {
        None => Some(DecimalValue::zero()),
        Some(p) => volume_for(p.flow, samples[0].date.seconds_from_midnight()),
    };
    let mut i: usize = 0;
    while i < n
        invariant
            n == samples@.len(),
            0 < n,
            i <= n,
            readings_of_day(day as int, samples@),
            opt_view(acc) == accumulate(
                match *previous {
                    None => Some((0int, 0int)),
                    Some(p) => volume(p.flow@, seconds_into_day(samples@[0].date.0 as int)),
                },
                samples@,
                i as int,
            ),
            acc matches Some(v) ==> v.wf(),
        decreases n - i,
    {
        let held: i64 = if i + 1 < n {
            proof {
                assert(samples@[i as int].date.day_spec() == day);
                assert(samples@[i + 1].date.day_spec() == day);
                assert(samples@[i as int].date.0 <= samples@[i + 1].date.0);
                lemma_same_day_gap(samples@[i as int].date.0 as int, samples@[i + 1].date.0 as int);
            }
            samples[i + 1].date.0 - samples[i].date.0
        } else {
            samples[i].date.seconds_until_next_day()
        };
        assert(samples@[i as int].flow.wf());
        acc = match acc {
            None => None,
            Some(a) => match volume_for(samples[i].flow, held) {
                None => None,
                Some(v) => checked_add(a, v),
            },
        };
        i = i + 1;
    }
    acc
}

/// With readings and no earlier reading, the day's volume is the decimal sum,
/// in order, of each reading's rate times the hours up to the next reading
/// (the last one: up to midnight); and those durations together span the day
/// from the first reading on: 24 hours less the first reading's hours after
/// midnight (here counted in seconds).
pub proof fn lemma_day_without_carry(day: int, s: Seq<PipeStats>)
    requires
        s.len() > 0,
        readings_of_day(day, s),
    ensures
        integrate_spec(s, None) == accumulate(Some((0int, 0int)), s, s.len() as int),
        elapsed_seconds(s, s.len() as int) == SECONDS_PER_DAY - seconds_into_day(s[0].date.0 as int),
{
    let n = s.len() as int;
    lemma_elapsed_to(s, n - 1);
    assert(s[n - 1].date.day_spec() == day);
    assert(s[0].date.day_spec() == day);
    lemma_day_split(s[n - 1].date.0 as int);
    lemma_day_split(s[0].date.0 as int);
}

/// Up to reading `k`, the held durations add up to the time from the first
/// reading to reading `k`.
proof fn lemma_elapsed_to(s: Seq<PipeStats>, k: int)
    requires
        0 <= k < s.len(),
    ensures
        elapsed_seconds(s, k) == s[k].date.0 - s[0].date.0,
    decreases k,
{
    if k > 0 {
        lemma_elapsed_to(s, k - 1);
    }
}

/// With no reading at all, the day's volume is zero.
pub proof fn lemma_no_readings_is_zero()
    ensures
        integrate_spec(Seq::<PipeStats>::empty(), None) == Some((0int, 0int)),
{
}

/// With no reading of the day, the earlier rate holds for all 24 hours.
pub proof fn lemma_carry_all_day(previous: PipeStats)
    ensures
        integrate_spec(Seq::<PipeStats>::empty(), Some(previous)) == decimal_product(previous.flow@, (24, 0)),
{
}

/// Two instants of one day are less than a day apart.
proof fn lemma_same_day_gap(a: int, b: int)
    requires
        day_of(a) == day_of(b),
        a <= b,
    ensures
        b - a < SECONDS_PER_DAY,
{
    lemma_day_split(a);
    lemma_day_split(b);
}

/// An instant is its day's midnight plus the seconds into the day.
proof fn lemma_day_split(t: int)
    ensures
        t == day_of(t) * SECONDS_PER_DAY + seconds_into_day(t),
        0 <= seconds_into_day(t) < SECONDS_PER_DAY,
{
    vstd::arithmetic::div_mod::lemma_fundamental_div_mod(t, SECONDS_PER_DAY as int);
}

} // verus!
