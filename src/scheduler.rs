use vstd::prelude::*;

use crate::model::{AuctionStatus, Item};

verus! {

/// The scheduler runs once per this many microseconds.
pub const TICK_PERIOD_MICROS: i64 = 1_000_000;

/// The status after one scheduler pass at `now`: a scheduled item whose
/// start time has come becomes active, then an active item whose end time
/// has come becomes completed. Other statuses stay.
pub open spec fn status_after_tick(
    status: AuctionStatus,
    start_time: i64,
    end_time: i64,
    now: i64,
) -> AuctionStatus {
    let started = if status == AuctionStatus::Scheduled && start_time <= now {
        AuctionStatus::Active
    } else {
        status
    };
    if started == AuctionStatus::Active && end_time <= now {
        AuctionStatus::Completed
    } else {
        started
    }
}

/// The status after one scheduler pass at `now`.
pub fn next_status(status: AuctionStatus, start_time: i64, end_time: i64, now: i64) -> (r:
    AuctionStatus)
    ensures
        r == status_after_tick(status, start_time, end_time, now),
{
    let started = if status == AuctionStatus::Scheduled && start_time <= now {
        AuctionStatus::Active
    } else {
        status
    };
    if started == AuctionStatus::Active && end_time <= now {
        AuctionStatus::Completed
    } else {
        started
    }
}

/// The status that a scheduler pass at `now` moves an item to, if it moves.
pub fn lifecycle_transition(item: &Item, now: i64) -> (r: Option<AuctionStatus>)
    ensures
        r == if status_after_tick(item.status, item.start_time, item.end_time, now)
            != item.status {
            Some(status_after_tick(item.status, item.start_time, item.end_time, now))
        } else {
            None::<AuctionStatus>
        },
{
    let next = next_status(item.status, item.start_time, item.end_time, now);
    if next != item.status {
        Some(next)
    } else {
        None
    }
}

/// The status after scheduler passes at the times `ticks`, in order.
pub open spec fn status_after_ticks(
    status: AuctionStatus,
    start_time: i64,
    end_time: i64,
    ticks: Seq<i64>,
) -> AuctionStatus
    decreases ticks.len(),
{
    if ticks.len() == 0 {
        status
    } else {
        status_after_tick(
            status_after_ticks(status, start_time, end_time, ticks.drop_last()),
            start_time,
            end_time,
            ticks.last(),
        )
    }
}

/// Whether the passes come in order, each at most `gap` after the one
/// before.
pub open spec fn ticks_within(ticks: Seq<i64>, gap: int) -> bool {
    forall|i: int| 0 <= i < ticks.len() - 1 ==> #[trigger] ticks[i] <= ticks[i + 1] <= ticks[i] + gap
}

/// The first pass at or after `x`, searched from index `i` on, comes at
/// most `gap` after `x`.
proof fn lemma_first_tick_from(ticks: Seq<i64>, gap: int, x: int, i: int) -> (k: int)
    requires
        ticks.len() > 0,
        0 <= gap,
        ticks_within(ticks, gap),
        ticks[0] <= x <= ticks.last(),
        0 <= i < ticks.len(),
        forall|j: int| 0 <= j < i ==> ticks[j] < x,
    ensures
        0 <= k < ticks.len(),
        x <= ticks[k] <= x + gap,
        forall|j: int| 0 <= j < k ==> ticks[j] < x,
    decreases ticks.len() - i,
{
    if ticks[i] >= x {
        if i > 0 {
            assert(ticks[i - 1] < x);
            assert(ticks[i - 1] <= ticks[i] <= ticks[i - 1] + gap);
        }
        i
    } else {
        lemma_first_tick_from(ticks, gap, x, i + 1)
    }
}

proof fn lemma_status_holds_before(
    status: AuctionStatus,
    start_time: i64,
    end_time: i64,
    ticks: Seq<i64>,
    k: int,
)
    requires
        0 <= k <= ticks.len(),
        status == AuctionStatus::Scheduled || status == AuctionStatus::Active,
        status == AuctionStatus::Scheduled ==> forall|j: int| 0 <= j < k ==> ticks[j] < start_time,
        status == AuctionStatus::Active ==> forall|j: int| 0 <= j < k ==> ticks[j] < end_time,
    ensures
        status_after_ticks(status, start_time, end_time, ticks.take(k)) == status,
    decreases k,
{
    if k > 0 {
        assert(ticks.take(k).drop_last() =~= ticks.take(k - 1));
        lemma_status_holds_before(status, start_time, end_time, ticks, k - 1);
    }
}

/// Scheduler liveness at the start: when passes come at most `gap` apart
/// (the period plus the scheduling delay) from before an item's start time
/// until after it, a scheduled item has left the scheduled status by the
/// first pass at or after its start time, which comes within `gap` of it.
/// It is then active, or completed when its end time has passed as well.
pub proof fn lemma_activation_in_time(start_time: i64, end_time: i64, ticks: Seq<i64>, gap: int)
    requires
        ticks.len() > 0,
        0 <= gap,
        ticks_within(ticks, gap),
        ticks[0] <= start_time <= ticks.last(),
    ensures
        exists|k: int|
            0 <= k < ticks.len() && start_time <= ticks[k] <= start_time + gap
                && #[trigger] status_after_ticks(
                AuctionStatus::Scheduled,
                start_time,
                end_time,
                ticks.take(k + 1),
            ) == if ticks[k] < end_time {
                AuctionStatus::Active
            } else {
                AuctionStatus::Completed
            },
{
    let k = lemma_first_tick_from(ticks, gap, start_time as int, 0);
    lemma_status_holds_before(AuctionStatus::Scheduled, start_time, end_time, ticks, k);
    assert(ticks.take(k + 1).drop_last() =~= ticks.take(k));
    assert(ticks.take(k + 1).last() == ticks[k]);
    assert(status_after_ticks(AuctionStatus::Scheduled, start_time, end_time, ticks.take(k + 1)) == if ticks[k] < end_time {
            AuctionStatus::Active
        } else {
            AuctionStatus::Completed
        });
}

/// Scheduler liveness at the end: under the same passes, an active item is
/// completed by the first pass at or after its end time, which comes within
/// `gap` of it.
pub proof fn lemma_completion_in_time(start_time: i64, end_time: i64, ticks: Seq<i64>, gap: int)
    requires
        ticks.len() > 0,
        0 <= gap,
        ticks_within(ticks, gap),
        ticks[0] <= end_time <= ticks.last(),
    ensures
        exists|k: int|
            0 <= k < ticks.len() && end_time <= ticks[k] <= end_time + gap
                && #[trigger] status_after_ticks(
                AuctionStatus::Active,
                start_time,
                end_time,
                ticks.take(k + 1),
            ) == AuctionStatus::Completed,
{
    let k = lemma_first_tick_from(ticks, gap, end_time as int, 0);
    lemma_status_holds_before(AuctionStatus::Active, start_time, end_time, ticks, k);
    assert(ticks.take(k + 1).drop_last() =~= ticks.take(k));
    assert(ticks.take(k + 1).last() == ticks[k]);
    assert(status_after_ticks(AuctionStatus::Active, start_time, end_time, ticks.take(k + 1)) == AuctionStatus::Completed);
}

} // verus!
