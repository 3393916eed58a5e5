use vstd::prelude::*;

use crate::events::{kind_of_name, AuctionEvent, Event};
use crate::model::{AuctionStatus, Bid, Item};
use crate::scheduler::{next_status, status_after_tick};

verus! {

/// A bid row that a projection records; the store assigns its id.
#[derive(Debug, Clone, Copy, PartialEq, Eq, Structural)]
pub struct NewBid {
    pub item_id: i64,
    pub bidder_id: i64,
    pub bid_amount: i64,
    pub bid_time: i64,
}

/// Whether projecting `payload` changes `item`. A bid moves the price only
/// above the current price; a buy-now completes only an item that is not
/// completed and whose current price is below the buy-now price. Either
/// applies only to the item that the event names.
pub open spec fn takes_effect(item: Item, payload: AuctionEvent) -> bool {
    match payload {
        AuctionEvent::BidPlaced { item_id, bid_amount, .. } => item_id == item.id
            && item.current_price < bid_amount,
        AuctionEvent::BuyNowExecuted { item_id, price, .. } => item_id == item.id
            && item.current_price < price && item.status != AuctionStatus::Completed,
    }
}

/// The item after projecting `payload` onto it.
pub open spec fn project_item(item: Item, payload: AuctionEvent) -> Item {
    if !takes_effect(item, payload) {
        item
    } else {
        match payload {
            AuctionEvent::BidPlaced { bid_amount, .. } => Item { current_price: bid_amount, ..item },
            AuctionEvent::BuyNowExecuted { price, .. } => Item {
                current_price: price,
                status: AuctionStatus::Completed,
                ..item
            },
        }
    }
}

/// The bid row that a projected event records: the bidder, or the buyer at
/// the buy-now price.
pub open spec fn bid_row_of(payload: AuctionEvent) -> NewBid {
    match payload {
        AuctionEvent::BidPlaced { item_id, bidder_id, bid_amount, timestamp } => NewBid {
            item_id,
            bidder_id,
            bid_amount,
            bid_time: timestamp,
        },
        AuctionEvent::BuyNowExecuted { item_id, buyer_id, price, timestamp } => NewBid {
            item_id,
            bidder_id: buyer_id,
            bid_amount: price,
            bid_time: timestamp,
        },
    }
}

/// Whether an event's envelope type names the kind of its payload; other
/// events are skipped.
pub open spec fn dispatchable(e: Event) -> bool {
    kind_of_name(e.event_type@) == Some(e.data.spec_kind())
}

/// Projects an event payload onto an item: the conditional update of the
/// query side. Returns the bid row to record when the update took effect.
pub fn apply_to_item(item: &mut Item, payload: &AuctionEvent) -> (r: Option<NewBid>)
    ensures
        *final(item) == project_item(*old(item), *payload),
        r == if takes_effect(*old(item), *payload) {
            Some(bid_row_of(*payload))
        } else {
            None
        },
{
    match payload {
        AuctionEvent::BidPlaced { item_id, bidder_id, bid_amount, timestamp } => {
            if *item_id == item.id && item.current_price < *bid_amount {
                item.current_price = *bid_amount;
                Some(
                    NewBid {
                        item_id: *item_id,
                        bidder_id: *bidder_id,
                        bid_amount: *bid_amount,
                        bid_time: *timestamp,
                    },
                )
            } else {
                None
            }
        },
        AuctionEvent::BuyNowExecuted { item_id, buyer_id, price, timestamp } => {
            if *item_id == item.id && item.current_price < *price && item.status
                != AuctionStatus::Completed {
                item.current_price = *price;
                item.status = AuctionStatus::Completed;
                Some(
                    NewBid {
                        item_id: *item_id,
                        bidder_id: *buyer_id,
                        bid_amount: *price,
                        bid_time: *timestamp,
                    },
                )
            } else {
                None
            }
        },
    }
}

/// Projects a logged event onto an item; an event whose envelope type does
/// not name its payload's kind is skipped.
pub fn project_event(item: &mut Item, event: &Event) -> (r: Option<NewBid>)
    ensures
        dispatchable(*event) ==> *final(item) == project_item(*old(item), event.data),
        !dispatchable(*event) ==> *final(item) == *old(item),
        r == if dispatchable(*event) && takes_effect(*old(item), event.data) {
            Some(bid_row_of(event.data))
        } else {
            None
        },
{
    if event.is_dispatchable() {
        apply_to_item(item, &event.data)
    } else {
        None
    }
}

/// The bid with the given id that a recorded row becomes.
pub open spec fn bid_of(row: NewBid, id: i64) -> Bid {
    Bid {
        id,
        item_id: row.item_id,
        bidder_id: row.bidder_id,
        bid_amount: row.bid_amount,
        bid_time: row.bid_time,
    }
}

/// What a projection store holds: item rows, bid rows in order of recording,
/// and the ids of the events already processed.
pub struct ProjectionState {
    pub items: Seq<Item>,
    pub bids: Seq<Bid>,
    pub processed: Seq<i64>,
}

/// Whether projecting `payload` changes some item.
pub open spec fn any_effect(items: Seq<Item>, payload: AuctionEvent) -> bool {
    exists|i: int| 0 <= i < items.len() && takes_effect(#[trigger] items[i], payload)
}

/// The store after one delivery of `e`. An event already processed changes
/// nothing; any other is marked processed, and, when its envelope names its
/// payload's kind, projected onto every item, with one bid row recorded when
/// the projection took effect.
pub open spec fn store_after(s: ProjectionState, e: Event) -> ProjectionState {
    if s.processed.contains(e.id) {
        s
    } else if !dispatchable(e) {
        ProjectionState { processed: s.processed.push(e.id), ..s }
    } else {
        ProjectionState {
            items: s.items.map_values(|it: Item| project_item(it, e.data)),
            bids: if any_effect(s.items, e.data) {
                s.bids.push(bid_of(bid_row_of(e.data), (s.bids.len() + 1) as i64))
            } else {
                s.bids
            },
            processed: s.processed.push(e.id),
        }
    }
}

/// The store after delivering the events of `log` in order.
pub open spec fn store_after_all(s: ProjectionState, log: Seq<Event>) -> ProjectionState
    decreases log.len(),
{
    if log.len() == 0 {
        s
    } else {
        store_after(store_after_all(s, log.drop_last()), log.last())
    }
}

/// The query-side tables, rebuilt from the event log: item rows, bid rows
/// and the set of processed event ids that makes redelivery harmless.
pub struct ProjectionStore {
    items: Vec<Item>,
    bids: Vec<Bid>,
    processed: Vec<i64>,
}

impl View for ProjectionStore {
    type V = ProjectionState;

    closed spec fn view(&self) -> ProjectionState {
        ProjectionState { items: self.items@, bids: self.bids@, processed: self.processed@ }
    }
}

impl ProjectionStore {
    /// A store that holds the given items, no bids and no processed events.
    pub fn new(items: Vec<Item>) -> (r: ProjectionStore)
        ensures
            r@.items == items@,
            r@.bids == Seq::<Bid>::empty(),
            r@.processed == Seq::<i64>::empty(),
    {
        ProjectionStore { items, bids: Vec::new(), processed: Vec::new() }
    }

    /// The item rows.
    pub fn items(&self) -> (r: &Vec<Item>)
        ensures
            r@ == self@.items,
    {
        &self.items
    }

    /// The bid rows, in order of recording.
    pub fn bids(&self) -> (r: &Vec<Bid>)
        ensures
            r@ == self@.bids,
    {
        &self.bids
    }

    /// The first item row with the given id: the snapshot that a command
    /// reads.
    pub fn item(&self, item_id: i64) -> (r: Option<&Item>)
        ensures
            match r {
                Some(it) => exists|i: int|
                    0 <= i < self@.items.len() && self@.items[i] == *it && it.id == item_id
                        && forall|j: int| 0 <= j < i ==> (#[trigger] self@.items[j]).id != item_id,
                None => forall|i: int|
                    0 <= i < self@.items.len() ==> (#[trigger] self@.items[i]).id != item_id,
            },
    {
        let n = self.items.len();
        let mut i: usize = 0;
        while i < n
            invariant
                n == self.items@.len(),
                i <= n,
                forall|j: int| 0 <= j < i ==> (#[trigger] self.items@[j]).id != item_id,
            decreases n - i,
        {
            if self.items[i].id == item_id {
                return Some(&self.items[i]);
            }
            i = i + 1;
        }
        None
    }

    /// Whether the event with this id was processed already.
    pub fn is_processed(&self, event_id: i64) -> (r: bool)
        ensures
            r == self@.processed.contains(event_id),
    {
        let n = self.processed.len();
        let mut i: usize = 0;
        while i < n
            invariant
                n == self.processed@.len(),
                i <= n,
                forall|j: int| 0 <= j < i ==> self.processed@[j] != event_id,
            decreases n - i,
        {
            if self.processed[i] == event_id {
                return true;
            }
            i = i + 1;
        }
        false
    }

    /// Delivers one event: projects it unless it was processed already.
    pub fn apply(&mut self, event: &Event)
        requires
            old(self)@.bids.len() + 1 < i64::MAX,
        ensures
            final(self)@ == store_after(old(self)@, *event),
    {
        if self.is_processed(event.id) {
            return;
        }
        if event.is_dispatchable() {
            let ghost before = self.items@;
            let n = self.items.len();
            let mut hit = false;
            let mut i: usize = 0;
            while i < n
                invariant
                    n == before.len(),
                    self.items@.len() == n,
                    i <= n,
                    self.bids@ == old(self).bids@,
                    self.processed@ == old(self).processed@,
                    before == old(self).items@,
                    forall|j: int|
                        0 <= j < i ==> self.items@[j] == project_item(before[j], event.data),
                    forall|j: int| i <= j < n ==> self.items@[j] == before[j],
                    hit == exists|j: int| 0 <= j < i && takes_effect(#[trigger] before[j], event.data),
                decreases n - i,
            {
                let row = apply_to_item(&mut self.items[i], &event.data);
                if row.is_some() {
                    hit = true;
                }
                i = i + 1;
            }
            if hit {
                let id = self.bids.len() as i64 + 1;
                let row = match &event.data {
                    AuctionEvent::BidPlaced { item_id, bidder_id, bid_amount, timestamp } => Bid {
                        id,
                        item_id: *item_id,
                        bidder_id: *bidder_id,
                        bid_amount: *bid_amount,
                        bid_time: *timestamp,
                    },
                    AuctionEvent::BuyNowExecuted { item_id, buyer_id, price, timestamp } => Bid {
                        id,
                        item_id: *item_id,
                        bidder_id: *buyer_id,
                        bid_amount: *price,
                        bid_time: *timestamp,
                    },
                };
                self.bids.push(row);
            }
            assert(self.items@ =~= before.map_values(|it: Item| project_item(it, event.data)));
        }
        self.processed.push(event.id);
    }

    /// One scheduler pass at `now` over every item row.
    pub fn advance_lifecycle(&mut self, now: i64)
        ensures
            final(self)@.items == old(self)@.items.map_values(
                |it: Item|
                    Item {
                        status: status_after_tick(it.status, it.start_time, it.end_time, now),
                        ..it
                    },
            ),
            final(self)@.bids == old(self)@.bids,
            final(self)@.processed == old(self)@.processed,
    {
        let ghost before = self.items@;
        let n = self.items.len();
        let mut i: usize = 0;
        while i < n
            invariant
                n == before.len(),
                self.items@.len() == n,
                i <= n,
                before == old(self).items@,
                self.bids@ == old(self).bids@,
                self.processed@ == old(self).processed@,
                forall|j: int|
                    0 <= j < i ==> self.items@[j] == (Item {
                        status: status_after_tick(
                            before[j].status,
                            before[j].start_time,
                            before[j].end_time,
                            now,
                        ),
                        ..before[j]
                    }),
                forall|j: int| i <= j < n ==> self.items@[j] == before[j],
            decreases n - i,
        {
            let it = &mut self.items[i];
            it.status = next_status(it.status, it.start_time, it.end_time, now);
            i = i + 1;
        }
        assert(self.items@ =~= before.map_values(
            |it: Item|
                Item { status: status_after_tick(it.status, it.start_time, it.end_time, now), ..it },
        ));
    }
}

proof fn lemma_delivery_marks_processed(s: ProjectionState, e: Event)
    ensures
        store_after(s, e).processed.contains(e.id),
        forall|x: i64| s.processed.contains(x) ==> store_after(s, e).processed.contains(x),
{
    let t = store_after(s, e);
    if !s.processed.contains(e.id) {
        assert(t.processed[t.processed.len() - 1] == e.id);
        assert forall|x: i64| s.processed.contains(x) implies t.processed.contains(x) by {
            let j = choose|j: int| 0 <= j < s.processed.len() && s.processed[j] == x;
            assert(t.processed[j] == x);
        }
    }
}

proof fn lemma_log_marks_processed(s: ProjectionState, log: Seq<Event>)
    ensures
        forall|i: int|
            0 <= i < log.len() ==> store_after_all(s, log).processed.contains(#[trigger] log[i].id),
        forall|x: i64| s.processed.contains(x) ==> store_after_all(s, log).processed.contains(x),
    decreases log.len(),
{
    if log.len() > 0 {
        let rest = log.drop_last();
        lemma_log_marks_processed(s, rest);
        let mid = store_after_all(s, rest);
        lemma_delivery_marks_processed(mid, log.last());
        assert forall|i: int| 0 <= i < log.len() implies store_after_all(
            s,
            log,
        ).processed.contains(#[trigger] log[i].id) by {
            if i < rest.len() {
                assert(rest[i] == log[i]);
            }
        }
    }
}

proof fn lemma_processed_replay_is_identity(t: ProjectionState, replay: Seq<Event>)
    requires
        forall|i: int| 0 <= i < replay.len() ==> t.processed.contains(#[trigger] replay[i].id),
    ensures
        store_after_all(t, replay) == t,
    decreases replay.len(),
{
    if replay.len() > 0 {
        let rest = replay.drop_last();
        assert forall|i: int| 0 <= i < rest.len() implies t.processed.contains(
            #[trigger] rest[i].id,
        ) by {
            assert(rest[i] == replay[i]);
        }
        lemma_processed_replay_is_identity(t, rest);
        assert(t.processed.contains(replay[replay.len() - 1].id));
    }
}

/// Idempotent projection: once a log has been delivered, delivering any
/// prefix of it again leaves the store as it is.
pub proof fn lemma_replayed_prefix_changes_nothing(s: ProjectionState, log: Seq<Event>, k: int)
    requires
        0 <= k <= log.len(),
    ensures
        store_after_all(store_after_all(s, log), log.take(k)) == store_after_all(s, log),
{
    let t = store_after_all(s, log);
    lemma_log_marks_processed(s, log);
    let prefix = log.take(k);
    assert forall|i: int| 0 <= i < prefix.len() implies t.processed.contains(
        #[trigger] prefix[i].id,
    ) by {
        assert(prefix[i] == log[i]);
    }
    lemma_processed_replay_is_identity(t, prefix);
}

/// Redelivery is harmless: delivering the same event twice in a row has the
/// effect of delivering it once.
pub proof fn lemma_redelivery_changes_nothing(s: ProjectionState, e: Event)
    ensures
        store_after(store_after(s, e), e) == store_after(s, e),
{
    lemma_delivery_marks_processed(s, e);
}

} // verus!
