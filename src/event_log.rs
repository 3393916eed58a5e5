use vstd::prelude::*;

use crate::events::Event;

verus! {

/// Why an append-and-publish did not go through.
#[derive(Debug, Clone, PartialEq, Eq)]
pub enum AppendError {
    /// Another event already holds this aggregate version.
    VersionConflict,
    /// The log could not be written.
    Storage(String),
    /// The event was appended, but publishing it failed.
    Publish(String),
}

/// Whether some event of aggregate `agg` holds version `v`.
pub open spec fn holds_version(events: Seq<Event>, agg: i64, v: i64) -> bool {
    exists|i: int| 0 <= i < events.len() && events[i].aggregate_id == agg && events[i].version == v
}

/// The versions of aggregate `agg`, in the order in which they were accepted.
pub open spec fn versions_of(events: Seq<Event>, agg: i64) -> Seq<i64>
    decreases events.len(),
{
    if events.len() == 0 {
        Seq::empty()
    } else {
        let rest = versions_of(events.drop_last(), agg);
        if events.last().aggregate_id == agg {
            rest.push(events.last().version)
        } else {
            rest
        }
    }
}

/// The largest version among the events of aggregate `agg`, if it has any.
pub open spec fn largest_version(events: Seq<Event>, agg: i64) -> Option<i64>
    decreases events.len(),
{
    if events.len() == 0 {
        None
    } else {
        let rest = largest_version(events.drop_last(), agg);
        let last = events.last();
        if last.aggregate_id != agg {
            rest
        } else {
            match rest {
                Some(v) => if v >= last.version {
                    Some(v)
                } else {
                    Some(last.version)
                },
                None => Some(last.version),
            }
        }
    }
}

/// The current version of aggregate `agg`: the largest version among its
/// events, whatever its sign, or 0 when it has no event.
pub open spec fn max_version(events: Seq<Event>, agg: i64) -> int {
    match largest_version(events, agg) {
        Some(v) => v as int,
        None => 0,
    }
}

/// Whether versions are 1, 2, ..., k in this order.
pub open spec fn gap_free(vs: Seq<i64>) -> bool {
    forall|i: int| 0 <= i < vs.len() ==> vs[i] == i + 1
}

/// `e` with its log sequence number set.
pub open spec fn with_id(e: Event, id: i64) -> Event {
    Event { id, ..e }
}

/// The log after an attempt to append `e`: it is refused when its aggregate
/// already holds its version, and otherwise stored with the next sequence
/// number.
pub open spec fn log_after(events: Seq<Event>, e: Event) -> Seq<Event> {
    if holds_version(events, e.aggregate_id, e.version) {
        events
    } else {
        events.push(with_id(e, (events.len() + 1) as i64))
    }
}

/// The append-only event log, keyed by (aggregate, version).
pub struct EventLog {
    events: Vec<Event>,
}

impl View for EventLog {
    type V = Seq<Event>;

    closed spec fn view(&self) -> Seq<Event> {
        self.events@
    }
}

impl EventLog {
    /// Sequence numbers count from 1 in order of acceptance, and no two
    /// events share an aggregate version.
    pub open spec fn wf(&self) -> bool {
        &&& self@.len() < i64::MAX
        &&& forall|i: int| 0 <= i < self@.len() ==> #[trigger] self@[i].id == i + 1
        &&& forall|i: int, j: int|
            0 <= i < self@.len() && 0 <= j < self@.len() && i != j
                && #[trigger] self@[i].aggregate_id == #[trigger] self@[j].aggregate_id
                ==> self@[i].version != self@[j].version
    }

    /// An empty log.
    pub fn new() -> (r: EventLog)
        ensures
            r.wf(),
            r@ == Seq::<Event>::empty(),
    {
        EventLog { events: Vec::new() }
    }

    /// The accepted events, in order.
    pub fn events(&self) -> (r: &Vec<Event>)
        ensures
            r@ == self@,
    {
        &self.events
    }

    /// How many events were accepted.
    pub fn len(&self) -> (r: usize)
        ensures
            r == self@.len(),
    {
        self.events.len()
    }

    /// Appends `event` unless its aggregate already holds its version; the
    /// accepted event gets the next sequence number, which is returned.
    pub fn append(&mut self, event: Event) -> (r: Result<i64, AppendError>)
        requires
            old(self).wf(),
            old(self)@.len() + 1 < i64::MAX,
        ensures
            final(self).wf(),
            final(self)@ == log_after(old(self)@, event),
            if holds_version(old(self)@, event.aggregate_id, event.version) {
                r == Err::<i64, AppendError>(AppendError::VersionConflict)
            } else {
                r == Ok::<i64, AppendError>((old(self)@.len() + 1) as i64)
            },
    {
        let n = self.events.len();
        let mut i: usize = 0;
        while i < n
            invariant
                n == self.events@.len(),
                i <= n,
                self@ == old(self)@,
                self.wf(),
                forall|j: int|
                    0 <= j < i ==> !(self.events@[j].aggregate_id == event.aggregate_id
                        && self.events@[j].version == event.version),
            decreases n - i,
        {
            if self.events[i].aggregate_id == event.aggregate_id && self.events[i].version
                == event.version {
                return Err(AppendError::VersionConflict);
            }
            i = i + 1;
        }
        let id = n as i64 + 1;
        let mut accepted = event;
        accepted.id = id;
        self.events.push(accepted);
        Ok(id)
    }

    /// The current version of an aggregate: the largest version among its
    /// events, or 0 when it has none.
    pub fn current_version(&self, aggregate_id: i64) -> (r: i64)
        ensures
            r == max_version(self@, aggregate_id),
    {
        let n = self.events.len();
        let mut best: Option<i64> = None;
        let mut i: usize = 0;
        while i < n
            invariant
                n == self@.len(),
                i <= n,
                best == largest_version(self@.take(i as int), aggregate_id),
            decreases n - i,
        {
            assert(self@.take(i + 1).drop_last() =~= self@.take(i as int));
            let e = &self.events[i];
            if e.aggregate_id == aggregate_id {
                best = match best {
                    Some(v) => if v >= e.version {
                        Some(v)
                    } else {
                        Some(e.version)
                    },
                    None => Some(e.version),
                };
            }
            i = i + 1;
        }
        assert(self@.take(n as int) =~= self@);
        match best {
            Some(v) => v,
            None => 0,
        }
    }
}

proof fn lemma_versions_of_push(events: Seq<Event>, x: Event, agg: i64)
    ensures
        versions_of(events.push(x), agg) == if x.aggregate_id == agg {
            versions_of(events, agg).push(x.version)
        } else {
            versions_of(events, agg)
        },
        largest_version(events.push(x), agg) == if x.aggregate_id != agg {
            largest_version(events, agg)
        } else {
            match largest_version(events, agg) {
                Some(v) => if v >= x.version {
                    Some(v)
                } else {
                    Some(x.version)
                },
                None => Some(x.version),
            }
        },
{
    assert(events.push(x).drop_last() =~= events);
}

proof fn lemma_holds_version_iff_listed(events: Seq<Event>, agg: i64, v: i64)
    ensures
        holds_version(events, agg, v) <==> versions_of(events, agg).contains(v),
    decreases events.len(),
{
    if events.len() > 0 {
        let rest = events.drop_last();
        let last = events.last();
        let vs = versions_of(events, agg);
        let rvs = versions_of(rest, agg);
        lemma_holds_version_iff_listed(rest, agg, v);
        assert(events =~= rest.push(last));
        lemma_versions_of_push(rest, last, agg);
        if holds_version(events, agg, v) {
            let i = choose|i: int|
                0 <= i < events.len() && events[i].aggregate_id == agg && events[i].version == v;
            if i < rest.len() {
                assert(rest[i] == events[i]);
                assert(holds_version(rest, agg, v));
                let j = choose|j: int| 0 <= j < rvs.len() && rvs[j] == v;
                assert(vs[j] == v);
            } else {
                assert(vs[vs.len() - 1] == v);
            }
        }
        if vs.contains(v) {
            let j = choose|j: int| 0 <= j < vs.len() && vs[j] == v;
            if last.aggregate_id == agg && j == vs.len() - 1 {
                assert(events[events.len() - 1].version == v);
                assert(events[events.len() - 1].aggregate_id == agg);
            } else {
                assert(rvs[j] == v);
                assert(rvs.contains(v));
                let i = choose|i: int|
                    0 <= i < rest.len() && rest[i].aggregate_id == agg && rest[i].version == v;
                assert(events[i] == rest[i]);
            }
        }
    }
}

proof fn lemma_gap_free_max(events: Seq<Event>, agg: i64)
    requires
        gap_free(versions_of(events, agg)),
    ensures
        largest_version(events, agg) == if versions_of(events, agg).len() == 0 {
            None::<i64>
        } else {
            Some(versions_of(events, agg).len() as i64)
        },
        max_version(events, agg) == versions_of(events, agg).len(),
    decreases events.len(),
{
    if events.len() > 0 {
        let rest = events.drop_last();
        assert(events =~= rest.push(events.last()));
        lemma_versions_of_push(rest, events.last(), agg);
        let vs = versions_of(rest, agg);
        assert(gap_free(vs)) by {
            assert forall|i: int| 0 <= i < vs.len() implies vs[i] == i + 1 by {
                assert(versions_of(events, agg)[i] == vs[i]);
            }
        }
        lemma_gap_free_max(rest, agg);
        if events.last().aggregate_id == agg {
            assert(versions_of(events, agg)[vs.len() as int] == vs.len() + 1);
        }
    }
}

/// The versions of an aggregate in an earlier state of the log are a prefix
/// of its versions now, and strictly shorter exactly when an event of the
/// aggregate was accepted since.
proof fn lemma_versions_of_prefix(events: Seq<Event>, n: int, agg: i64)
    requires
        0 <= n <= events.len(),
    ensures
        versions_of(events.take(n), agg).len() <= versions_of(events, agg).len(),
        versions_of(events, agg).take(versions_of(events.take(n), agg).len() as int)
            == versions_of(events.take(n), agg),
        (exists|i: int| n <= i < events.len() && (#[trigger] events[i]).aggregate_id == agg)
            <==> versions_of(events.take(n), agg).len() < versions_of(events, agg).len(),
    decreases events.len(),
{
    let vs = versions_of(events, agg);
    if n == events.len() {
        assert(events.take(n) =~= events);
        assert(vs.take(vs.len() as int) =~= vs);
    } else {
        let rest = events.drop_last();
        let last = events.last();
        assert(events =~= rest.push(last));
        assert(events.take(n) =~= rest.take(n));
        lemma_versions_of_prefix(rest, n, agg);
        lemma_versions_of_push(rest, last, agg);
        let rvs = versions_of(rest, agg);
        let pvs = versions_of(rest.take(n), agg);
        assert(vs.take(pvs.len() as int) =~= rvs.take(pvs.len() as int));
        if exists|i: int| n <= i < events.len() && (#[trigger] events[i]).aggregate_id == agg {
            let i = choose|i: int| n <= i < events.len() && (#[trigger] events[i]).aggregate_id == agg;
            if i < rest.len() {
                assert(rest[i] == events[i]);
            }
        }
        if exists|i: int| n <= i < rest.len() && (#[trigger] rest[i]).aggregate_id == agg {
            let i = choose|i: int| n <= i < rest.len() && (#[trigger] rest[i]).aggregate_id == agg;
            assert(events[i] == rest[i]);
        }
        if last.aggregate_id == agg {
            assert(events[events.len() - 1].aggregate_id == agg);
        }
    }
}

/// Version monotonicity. While, for every aggregate, the accepted versions
/// are 1, 2, ..., k in order of acceptance, an append that asks for one more
/// than a current version read from the log at any earlier time keeps them
/// so: it is accepted exactly when it asks for k + 1.
pub proof fn lemma_versions_stay_gap_free(events: Seq<Event>, e: Event)
    requires
        forall|a: i64| gap_free(#[trigger] versions_of(events, a)),
        1 <= e.version <= max_version(events, e.aggregate_id) + 1,
    ensures
        forall|a: i64| gap_free(#[trigger] versions_of(log_after(events, e), a)),
        !holds_version(events, e.aggregate_id, e.version) <==> e.version == max_version(
            events,
            e.aggregate_id,
        ) + 1,
{
    let agg = e.aggregate_id;
    let vs = versions_of(events, agg);
    lemma_gap_free_max(events, agg);
    lemma_holds_version_iff_listed(events, agg, e.version);
    if e.version <= vs.len() {
        assert(vs[e.version - 1] == e.version);
    }
    if !holds_version(events, agg, e.version) {
        let x = with_id(e, (events.len() + 1) as i64);
        assert forall|a: i64| gap_free(#[trigger] versions_of(log_after(events, e), a)) by {
            lemma_versions_of_push(events, x, a);
            assert(gap_free(versions_of(events, a)));
        }
    }
}

/// Appends decided on stale reads. While, for every aggregate, the
/// accepted versions are 1, 2, ..., k in order of acceptance, a command that
/// read the current version `v` of its aggregate from an earlier state of
/// the log (`read`, a prefix of `events`) and appends at `v + 1` keeps them
/// so. Its append conflicts exactly when another event of the aggregate was
/// accepted since its read: every conflict stands for an accepted append.
pub proof fn lemma_stale_read_append(read: Seq<Event>, events: Seq<Event>, e: Event)
    requires
        forall|a: i64| gap_free(#[trigger] versions_of(events, a)),
        read.len() <= events.len(),
        events.take(read.len() as int) == read,
        e.version == max_version(read, e.aggregate_id) + 1,
    ensures
        forall|a: i64| gap_free(#[trigger] versions_of(log_after(events, e), a)),
        holds_version(events, e.aggregate_id, e.version) <==> exists|i: int|
            read.len() <= i < events.len() && (#[trigger] events[i]).aggregate_id
                == e.aggregate_id,
{
    let agg = e.aggregate_id;
    let vs = versions_of(events, agg);
    lemma_versions_of_prefix(events, read.len() as int, agg);
    let rvs = versions_of(read, agg);
    assert(gap_free(vs));
    assert(gap_free(rvs)) by {
        assert forall|i: int| 0 <= i < rvs.len() implies rvs[i] == i + 1 by {
            assert(vs.take(rvs.len() as int)[i] == vs[i]);
        }
    }
    lemma_gap_free_max(read, agg);
    lemma_gap_free_max(events, agg);
    lemma_holds_version_iff_listed(events, agg, e.version);
    if e.version <= vs.len() {
        assert(vs[e.version - 1] == e.version);
    }
    if vs.contains(e.version) {
        let j = choose|j: int| 0 <= j < vs.len() && vs[j] == e.version;
        assert(vs[j] == j + 1);
    }
    lemma_versions_stay_gap_free(events, e);
}

} // verus!
