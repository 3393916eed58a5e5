use vstd::prelude::*;

use crate::commands::{decision, snapshot_step, Command, CommandAction, CommandError, CommandRun, RunPhase};
use crate::events::AuctionEvent;
use crate::model::{AuctionStatus, Item, PlaceBidCommand};
use crate::projection::project_item;

verus! {

/// The item after projecting `payloads` onto it in order.
pub open spec fn item_after_all(item: Item, payloads: Seq<AuctionEvent>) -> Item
    decreases payloads.len(),
{
    if payloads.len() == 0 {
        item
    } else {
        project_item(item_after_all(item, payloads.drop_last()), payloads.last())
    }
}

/// How many buy-now events `payloads` holds.
pub open spec fn buy_now_count(payloads: Seq<AuctionEvent>) -> nat
    decreases payloads.len(),
{
    if payloads.len() == 0 {
        0
    } else {
        buy_now_count(payloads.drop_last()) + if payloads.last() is BuyNowExecuted {
            1nat
        } else {
            0nat
        }
    }
}

/// Whether `p` is a bid on the item with id `id`.
pub open spec fn is_bid_on(p: AuctionEvent, id: i64) -> bool {
    p matches AuctionEvent::BidPlaced { item_id, .. } && item_id == id
}

/// The amount of a bid event.
pub open spec fn bid_amount_of(p: AuctionEvent) -> i64 {
    match p {
        AuctionEvent::BidPlaced { bid_amount, .. } => bid_amount,
        AuctionEvent::BuyNowExecuted { price, .. } => price,
    }
}

/// Whether `payloads` is the history of `item` that the command path
/// accepts when each command reads a snapshot that holds every earlier
/// event: each event is what its command decides on the item projected
/// from the events before it.
pub open spec fn decided_in_turn(
    item: Item,
    payloads: Seq<AuctionEvent>,
    cmds: Seq<Command>,
    nows: Seq<i64>,
) -> bool {
    &&& cmds.len() == payloads.len()
    &&& nows.len() == payloads.len()
    &&& forall|i: int|
        0 <= i < payloads.len() ==> (#[trigger] cmds[i]).spec_item_id() == item.id && decision(
            cmds[i],
            item_after_all(item, payloads.take(i)),
            nows[i],
        ) == Ok::<AuctionEvent, CommandError>(payloads[i])
}

proof fn lemma_prefix_step(item: Item, payloads: Seq<AuctionEvent>, n: int)
    requires
        0 <= n < payloads.len(),
    ensures
        item_after_all(item, payloads.take(n + 1)) == project_item(
            item_after_all(item, payloads.take(n)),
            payloads[n],
        ),
        buy_now_count(payloads.take(n + 1)) == buy_now_count(payloads.take(n)) + if payloads[n] is BuyNowExecuted {
            1nat
        } else {
            0nat
        },
{
    assert(payloads.take(n + 1).drop_last() =~= payloads.take(n));
}

/// Projection only moves the current price and the status.
proof fn lemma_projection_keeps_terms(item: Item, payloads: Seq<AuctionEvent>)
    ensures
        item_after_all(item, payloads).id == item.id,
        item_after_all(item, payloads).buy_now_price == item.buy_now_price,
        item_after_all(item, payloads).start_time == item.start_time,
        item_after_all(item, payloads).end_time == item.end_time,
    decreases payloads.len(),
{
    if payloads.len() > 0 {
        lemma_projection_keeps_terms(item, payloads.drop_last());
    }
}

/// Price monotonicity: after any number of projected bids on an item, its
/// current price is the largest of its price before them and their
/// amounts, and its status is unchanged.
pub proof fn lemma_price_is_running_max(item: Item, payloads: Seq<AuctionEvent>)
    requires
        forall|i: int| 0 <= i < payloads.len() ==> is_bid_on(#[trigger] payloads[i], item.id),
    ensures
        item_after_all(item, payloads).current_price >= item.current_price,
        forall|i: int|
            0 <= i < payloads.len() ==> bid_amount_of(#[trigger] payloads[i])
                <= item_after_all(item, payloads).current_price,
        item_after_all(item, payloads).current_price == item.current_price || exists|i: int|
            0 <= i < payloads.len() && bid_amount_of(#[trigger] payloads[i]) == item_after_all(
                item,
                payloads,
            ).current_price,
        item_after_all(item, payloads).status == item.status,
    decreases payloads.len(),
{
    if payloads.len() > 0 {
        let rest = payloads.drop_last();
        assert forall|i: int| 0 <= i < rest.len() implies is_bid_on(#[trigger] rest[i], item.id) by {
            assert(rest[i] == payloads[i]);
        }
        lemma_price_is_running_max(item, rest);
        lemma_projection_keeps_terms(item, rest);
        let before = item_after_all(item, rest);
        let last = payloads.last();
        assert(is_bid_on(payloads[payloads.len() - 1], item.id));
        let after = item_after_all(item, payloads);
        assert forall|i: int| 0 <= i < payloads.len() implies bid_amount_of(#[trigger] payloads[i])
            <= after.current_price by {
            if i < rest.len() {
                assert(rest[i] == payloads[i]);
            }
        }
        if after.current_price != item.current_price {
            if after.current_price == before.current_price {
                let j = choose|j: int|
                    0 <= j < rest.len() && bid_amount_of(#[trigger] rest[j])
                        == before.current_price;
                assert(payloads[j] == rest[j]);
            } else {
                assert(bid_amount_of(payloads[payloads.len() - 1]) == after.current_price);
            }
        }
    }
}

/// Under contention the highest bid wins: when bids at amounts up to `top`,
/// one of them at `top`, are projected onto an item priced below `top`, in
/// any order, the item ends at `top`.
pub proof fn lemma_highest_bid_wins(item: Item, payloads: Seq<AuctionEvent>, top: i64)
    requires
        item.current_price < top,
        forall|i: int| 0 <= i < payloads.len() ==> is_bid_on(#[trigger] payloads[i], item.id),
        forall|i: int| 0 <= i < payloads.len() ==> bid_amount_of(#[trigger] payloads[i]) <= top,
        exists|i: int| 0 <= i < payloads.len() && bid_amount_of(#[trigger] payloads[i]) == top,
    ensures
        item_after_all(item, payloads).current_price == top,
{
    lemma_price_is_running_max(item, payloads);
}

proof fn lemma_winner_prefix(
    item: Item,
    payloads: Seq<AuctionEvent>,
    cmds: Seq<Command>,
    nows: Seq<i64>,
    n: int,
)
    requires
        item.current_price < item.buy_now_price,
        decided_in_turn(item, payloads, cmds, nows),
        0 <= n <= payloads.len(),
    ensures
        buy_now_count(payloads.take(n)) <= 1,
        buy_now_count(payloads.take(n)) == 0 ==> item_after_all(item, payloads.take(n)).current_price
            < item.buy_now_price,
        buy_now_count(payloads.take(n)) == 1 ==> item_after_all(item, payloads.take(n)).status
            == AuctionStatus::Completed,
    decreases n,
{
    if n == 0 {
        assert(payloads.take(0) =~= Seq::<AuctionEvent>::empty());
    } else {
        let m = n - 1;
        lemma_winner_prefix(item, payloads, cmds, nows, m);
        let s = item_after_all(item, payloads.take(m));
        lemma_projection_keeps_terms(item, payloads.take(m));
        lemma_prefix_step(item, payloads, m);
        assert(cmds[m].spec_item_id() == item.id);
        assert(decision(cmds[m], s, nows[m]) == Ok::<AuctionEvent, CommandError>(payloads[m]));
    }
}

/// Under contention the highest bid is never rejected as low: on any
/// snapshot of an active item that holds only lower bids of the same
/// contest, a bid of `top` below the buy-now price is accepted as a plain
/// bid. Only version conflicts can keep it out.
pub proof fn lemma_highest_bid_is_accepted(
    item: Item,
    payloads: Seq<AuctionEvent>,
    cmd: PlaceBidCommand,
    now: i64,
)
    requires
        item.status == AuctionStatus::Active,
        item.start_time <= now <= item.end_time,
        item.current_price < cmd.bid_amount < item.buy_now_price,
        forall|i: int| 0 <= i < payloads.len() ==> is_bid_on(#[trigger] payloads[i], item.id),
        forall|i: int|
            0 <= i < payloads.len() ==> bid_amount_of(#[trigger] payloads[i]) < cmd.bid_amount,
    ensures
        decision(Command::PlaceBid(cmd), item_after_all(item, payloads), now) == Ok::<
            AuctionEvent,
            CommandError,
        >(
            AuctionEvent::BidPlaced {
                item_id: cmd.item_id,
                bidder_id: cmd.bidder_id,
                bid_amount: cmd.bid_amount,
                timestamp: now,
            },
        ),
{
    lemma_price_is_running_max(item, payloads);
    lemma_projection_keeps_terms(item, payloads);
}

/// An event that the command path accepts for an item keeps the item's
/// prices ordered (starting price, current price, buy-now price) when it is
/// projected, and never lowers its current price.
pub proof fn lemma_accepted_event_keeps_item_wf(item: Item, cmd: Command, now: i64)
    requires
        item.wf(),
        cmd.spec_item_id() == item.id,
        decision(cmd, item, now) is Ok,
    ensures
        project_item(item, decision(cmd, item, now)->Ok_0).wf(),
        project_item(item, decision(cmd, item, now)->Ok_0).current_price >= item.current_price,
{
}

/// A projected buy-now ends the auction: once a buy-now of an item has been
/// projected onto it (or the item was completed already), the item is
/// completed, and a command run whose snapshot is that item, taken from the
/// start time on, is answered as already ended without appending anything.
pub proof fn lemma_projected_buy_now_ends_auction(
    item: Item,
    p: AuctionEvent,
    before: CommandRun,
    after: CommandRun,
    current_version: i64,
    now: i64,
    action: CommandAction,
)
    requires
        p is BuyNowExecuted,
        p.spec_item_id() == item.id,
        item.status == AuctionStatus::Completed || item.current_price < p->price,
        now >= item.start_time,
        snapshot_step(before, after, project_item(item, p), current_version, now, action),
    ensures
        project_item(item, p).status == AuctionStatus::Completed,
        decision(before.command, project_item(item, p), now) == Err::<AuctionEvent, CommandError>(
            CommandError::AlreadyEnded,
        ),
        action == CommandAction::Reply(Err(CommandError::AlreadyEnded)),
        after.phase == RunPhase::Finished,
{
}

/// At most one winner: in a history that the command path accepted for an
/// item priced below its buy-now price, with snapshots that hold every
/// earlier event, there is at most one buy-now; once there is one, the item
/// is completed and every later command from its start time on is rejected
/// as already ended.
pub proof fn lemma_at_most_one_winner(
    item: Item,
    payloads: Seq<AuctionEvent>,
    cmds: Seq<Command>,
    nows: Seq<i64>,
)
    requires
        item.current_price < item.buy_now_price,
        decided_in_turn(item, payloads, cmds, nows),
    ensures
        buy_now_count(payloads) <= 1,
        buy_now_count(payloads) == 1 ==> item_after_all(item, payloads).status
            == AuctionStatus::Completed,
        buy_now_count(payloads) == 1 ==> forall|c: Command, now: i64|
            now >= item.start_time ==> decision(c, item_after_all(item, payloads), now) == Err::<
                AuctionEvent,
                CommandError,
            >(CommandError::AlreadyEnded),
{
    lemma_winner_prefix(item, payloads, cmds, nows, payloads.len() as int);
    assert(payloads.take(payloads.len() as int) =~= payloads);
    lemma_projection_keeps_terms(item, payloads);
}

} // verus!
