//! Flow-rate readings of a line, and the queries over them that the daily
//! volume needs.
use vstd::prelude::*;
use crate::datetime::DateTimeDerived;
use crate::decimal::DecimalValue;
use crate::error::Error;
use crate::flow::readings_of_day;
use crate::repository::{window, DEFAULT_LIMIT};
use crate::thing::{key_of, ThingDerived};

verus! {

/// One sensor reading of a line: its instant, flow rate (volume per hour)
/// and wear.
#[derive(Clone, Debug)]
pub struct PipeStats {
    pub id: Option<ThingDerived>,
    pub date: DateTimeDerived,
    pub flow: DecimalValue,
    pub units: ThingDerived,
    pub wearout: DecimalValue,
    pub pipe: ThingDerived,
}

impl PipeStats {
    /// The key under which this reading is stored: a failure when it has none.
    pub fn thing(&self) -> (r: Result<ThingDerived, Error>)
        ensures
            match self.id {
                Some(k) => r == Ok::<ThingDerived, Error>(k),
                None => r matches Err(e) && e is Generic,
            },
    {
        key_of(&self.id)
    }

    /// A copy of this reading.
    pub fn duplicate(&self) -> (r: PipeStats)
        ensures
            r == *self,
    {
        let id = match &self.id {
            Some(t) => Some(t.duplicate()),
            None => None,
        };
        PipeStats {
            id,
            date: self.date,
            flow: self.flow,
            units: self.units.duplicate(),
            wearout: self.wearout,
            pipe: self.pipe.duplicate(),
        }
    }
}

/// Reading `r` is of line `pipe` and falls on `day`.
pub open spec fn reading_on(r: PipeStats, pipe: (Seq<char>, Seq<char>), day: int) -> bool {
    r.pipe@ == pipe && r.date.day_spec() == day
}

/// Reading `r` is of line `pipe` and falls on a day before `day`.
pub open spec fn reading_before(r: PipeStats, pipe: (Seq<char>, Seq<char>), day: int) -> bool {
    r.pipe@ == pipe && r.date.day_spec() < day
}

/// Every stored reading carries a representable rate.
pub open spec fn rates_representable(records: Seq<PipeStats>) -> bool {
    forall|i: int| 0 <= i < records.len() ==> (#[trigger] records[i]).flow.wf()
}

/// The readings are in order of their instants.
pub open spec fn ordered_by_instant(s: Seq<PipeStats>) -> bool {
    forall|i: int, j: int| 0 <= i < j < s.len() ==> s[i].date.0 <= s[j].date.0
}

/// `s` with `x` put after every reading at or before `x`'s instant.
pub open spec fn insert_by_instant(s: Seq<PipeStats>, x: PipeStats) -> Seq<PipeStats>
    decreases s.len(),
{
    if s.len() == 0 {
        seq![x]
    } else if s.last().date.0 <= x.date.0 {
        s.push(x)
    } else {
        insert_by_instant(s.drop_last(), x).push(s.last())
    }
}

/// The readings of line `pipe` on `day` among `records`, in order of their
/// instants; readings at one instant keep their order in `records`.
pub open spec fn readings_on_day(records: Seq<PipeStats>, pipe: (Seq<char>, Seq<char>), day: int) -> Seq<PipeStats>
    decreases records.len(),
{
    if records.len() == 0 {
        Seq::empty()
    } else {
        let rest = readings_on_day(records.drop_last(), pipe, day);
        if reading_on(records.last(), pipe, day) {
            insert_by_instant(rest, records.last())
        } else {
            rest
        }
    }
}

/// The latest reading of line `pipe` before `day` among `records`; of
/// readings at one instant, the one that comes last in `records`.
pub open spec fn latest_before(records: Seq<PipeStats>, pipe: (Seq<char>, Seq<char>), day: int) -> Option<PipeStats>
    decreases records.len(),
{
    if records.len() == 0 {
        None
    } else {
        let p = latest_before(records.drop_last(), pipe, day);
        let x = records.last();
        if reading_before(x, pipe, day) && (p matches Some(q) ==> q.date.0 <= x.date.0) {
            Some(x)
        } else {
            p
        }
    }
}

/// Inserting at the place where the later readings begin is what
/// `insert_by_instant` does.
proof fn lemma_insert_at(s: Seq<PipeStats>, x: PipeStats, j: int)
    requires
        0 <= j <= s.len(),
        forall|i: int| j <= i < s.len() ==> s[i].date.0 > x.date.0,
        j > 0 ==> s[j - 1].date.0 <= x.date.0,
    ensures
        insert_by_instant(s, x) == s.insert(j, x),
    decreases s.len(),
{
    if s.len() == 0 {
        assert(s.insert(j, x) =~= seq![x]);
    } else if j == s.len() {
        assert(s.insert(j, x) =~= s.push(x));
    } else {
        lemma_insert_at(s.drop_last(), x, j);
        assert(s.insert(j, x) =~= s.drop_last().insert(j, x).push(s.last()));
    }
}

/// Inserting keeps the order, and adds `x` to what `s` holds.
proof fn lemma_insert_ordered(s: Seq<PipeStats>, x: PipeStats)
    requires
        ordered_by_instant(s),
    ensures
        ordered_by_instant(insert_by_instant(s, x)),
        insert_by_instant(s, x).len() == s.len() + 1,
        forall|i: int| 0 <= i < insert_by_instant(s, x).len() ==>
            #[trigger] insert_by_instant(s, x)[i] == x || s.contains(insert_by_instant(s, x)[i]),
    decreases s.len(),
{
    if s.len() > 0 && s.last().date.0 > x.date.0 {
        let t = s.drop_last();
        assert(ordered_by_instant(t));
        lemma_insert_ordered(t, x);
        let u = insert_by_instant(t, x);
        assert forall|i: int| 0 <= i < u.len() implies #[trigger] u[i].date.0 <= s.last().date.0 by {
            if u[i] != x {
                let k = choose|k: int| 0 <= k < t.len() && t[k] == u[i];
                assert(s[k] == t[k]);
            }
        }
        assert forall|i: int| 0 <= i < u.len() implies u[i] == x || #[trigger] s.contains(u[i]) by {
            if u[i] != x {
                let k = choose|k: int| 0 <= k < t.len() && t[k] == u[i];
                assert(s[k] == u[i]);
            }
        }
        assert(s.contains(s.last()));
    } else if s.len() > 0 {
        assert forall|i: int| 0 <= i < s.push(x).len() implies s.push(x)[i] == x || #[trigger] s.contains(s.push(x)[i]) by {
            if i < s.len() {
                assert(s[i] == s.push(x)[i]);
            }
        }
    }
}

/// The selected readings are those of one day, with representable rates,
/// in order of their instants.
pub proof fn lemma_readings_on_day_ordered(records: Seq<PipeStats>, pipe: (Seq<char>, Seq<char>), day: int)
    requires
        rates_representable(records),
    ensures
        readings_of_day(day, readings_on_day(records, pipe, day)),
        forall|i: int| 0 <= i < readings_on_day(records, pipe, day).len() ==>
            records.contains(#[trigger] readings_on_day(records, pipe, day)[i]),
    decreases records.len(),
{
    if records.len() > 0 {
        let t = records.drop_last();
        assert(rates_representable(t)) by {
            assert forall|i: int| 0 <= i < t.len() implies (#[trigger] t[i]).flow.wf() by {
                assert(t[i] == records[i]);
            }
        }
        lemma_readings_on_day_ordered(t, pipe, day);
        let rest = readings_on_day(t, pipe, day);
        assert forall|i: int| 0 <= i < rest.len() implies records.contains(#[trigger] rest[i]) by {
            let k = choose|k: int| 0 <= k < t.len() && t[k] == rest[i];
            assert(records[k] == t[k]);
        }
        assert(records[records.len() - 1] == records.last());
        if reading_on(records.last(), pipe, day) {
            lemma_insert_ordered(rest, records.last());
            let u = insert_by_instant(rest, records.last());
            assert forall|i: int| 0 <= i < u.len() implies #[trigger] records.contains(u[i]) by {
                if u[i] != records.last() {
                    let k = choose|k: int| 0 <= k < rest.len() && rest[k] == u[i];
                    assert(records.contains(rest[k]));
                }
            }
            assert forall|i: int| 0 <= i < u.len() implies (#[trigger] u[i]).date.day_spec() == day && u[i].flow.wf() by {
                if u[i] != records.last() {
                    let k = choose|k: int| 0 <= k < rest.len() && rest[k] == u[i];
                    assert(rest[k].date.day_spec() == day);
                }
            }
        }
    }
}

/// Queries over the stored readings.
pub struct PipeStatsRepository {}

impl PipeStatsRepository {
    /// The readings of line `pipe` on the day of `date`, in order of their
    /// instants.
    pub fn select_by_pipe_and_date(records: &Vec<PipeStats>, pipe: &ThingDerived, date: DateTimeDerived) -> (r: Vec<PipeStats>)
        ensures
            r@ == readings_on_day(records@, pipe@, date.day_spec()),
    {
        let day = date.day();
        let mut out: Vec<PipeStats> = Vec::new();
        let mut i: usize = 0;
        while i < records.len()
            invariant
                i <= records@.len(),
                day == date.day_spec(),
                out@ == readings_on_day(records@.subrange(0, i as int), pipe@, day as int),
            decreases records@.len() - i,
        {
            let ghost before = out@;
            let r = &records[i];
            assert(records@.subrange(0, i + 1).drop_last() =~= records@.subrange(0, i as int));
            assert(records@.subrange(0, i + 1).last() == records@[i as int]);
            if r.pipe.same_as(pipe) && r.date.day() == day {
                let mut j: usize = out.len();
                while j > 0 && out[j - 1].date.0 > r.date.0
                    invariant
                        j <= out@.len(),
                        out@ == before,
                        forall|k: int| j <= k < out@.len() ==> out@[k].date.0 > r.date.0,
                    decreases j,
                {
                    j = j - 1;
                }
                proof {
                    lemma_insert_at(out@, *r, j as int);
                }
                out.insert(j, r.duplicate());
            }
            i = i + 1;
        }
        assert(records@.subrange(0, records@.len() as int) =~= records@);
        out
    }

    /// The latest reading of line `pipe` on a day before that of `date`, if any.
    pub fn select_previous_reading_by_pipe_and_date(records: &Vec<PipeStats>, pipe: &ThingDerived, date: DateTimeDerived) -> (r: Option<PipeStats>)
        ensures
            r == latest_before(records@, pipe@, date.day_spec()),
    {
        let day = date.day();
        let mut best: Option<PipeStats> = None;
        let mut i: usize = 0;
        while i < records.len()
            invariant
                i <= records@.len(),
                day == date.day_spec(),
                best == latest_before(records@.subrange(0, i as int), pipe@, day as int),
            decreases records@.len() - i,
        {
            let r = &records[i];
            assert(records@.subrange(0, i + 1).drop_last() =~= records@.subrange(0, i as int));
            assert(records@.subrange(0, i + 1).last() == records@[i as int]);
            if r.pipe.same_as(pipe) && r.date.day() < day {
                let later = match &best {
                    Some(q) => q.date.0 <= r.date.0,
                    None => true,
                };
                if later {
                    best = Some(r.duplicate());
                }
            }
            i = i + 1;
        }
        assert(records@.subrange(0, records@.len() as int) =~= records@);
        best
    }
}

/// Operations on flow readings.
pub struct PipeStatsUseCases {}

impl PipeStatsUseCases {
    /// Offset and page size of a listing of flow readings: the given ones, else
    /// offset 0 and `DEFAULT_LIMIT` per page.
    pub fn list_window(offset: Option<usize>, limit: Option<usize>) -> (r: (usize, usize))
        ensures
            r.0 == match offset {
                Some(o) => o,
                None => 0usize,
            },
            r.1 == match limit {
                Some(l) => l,
                None => DEFAULT_LIMIT,
            },
    {
        window(offset, limit, 0)
    }
}

} // verus!
