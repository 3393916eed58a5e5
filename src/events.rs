use vstd::prelude::*;

use crate::model::str_eq;

verus! {

/// A domain event of one auction item. Times are microseconds since the
/// Unix epoch.
#[derive(Debug, Clone, Copy, PartialEq, Eq, Structural)]
pub enum AuctionEvent {
    BidPlaced { item_id: i64, bidder_id: i64, bid_amount: i64, timestamp: i64 },
    BuyNowExecuted { item_id: i64, buyer_id: i64, price: i64, timestamp: i64 },
}

/// The discriminator that an event envelope carries beside its payload.
#[derive(Debug, Clone, Copy, PartialEq, Eq, Structural)]
pub enum EventKind {
    BidPlaced,
    BuyNowExecuted,
}

/// The envelope name of an event kind.
pub open spec fn kind_name(k: EventKind) -> Seq<char> {
    match k {
        EventKind::BidPlaced => "BidPlaced"@,
        EventKind::BuyNowExecuted => "BuyNowExecuted"@,
    }
}

/// The event kind that an envelope name denotes, if any.
pub open spec fn kind_of_name(s: Seq<char>) -> Option<EventKind> {
    if s == "BidPlaced"@ {
        Some(EventKind::BidPlaced)
    } else if s == "BuyNowExecuted"@ {
        Some(EventKind::BuyNowExecuted)
    } else {
        None
    }
}

impl EventKind {
    /// The envelope name of this kind.
    pub fn name(&self) -> (r: &'static str)
        ensures
            r@ == kind_name(*self),
            kind_of_name(r@) == Some(*self),
    {
        proof {
            reveal_strlit("BidPlaced");
            reveal_strlit("BuyNowExecuted");
            assert("BidPlaced"@[1] != "BuyNowExecuted"@[1]);
        }
        match self {
            EventKind::BidPlaced => "BidPlaced",
            EventKind::BuyNowExecuted => "BuyNowExecuted",
        }
    }

    /// Reads an envelope name; `None` for a kind this library does not know.
    pub fn parse(s: &str) -> (r: Option<EventKind>)
        ensures
            r == kind_of_name(s@),
    {
        if str_eq(s, "BidPlaced") {
            Some(EventKind::BidPlaced)
        } else if str_eq(s, "BuyNowExecuted") {
            Some(EventKind::BuyNowExecuted)
        } else {
            None
        }
    }
}

impl AuctionEvent {
    pub open spec fn spec_kind(self) -> EventKind {
        match self {
            AuctionEvent::BidPlaced { .. } => EventKind::BidPlaced,
            AuctionEvent::BuyNowExecuted { .. } => EventKind::BuyNowExecuted,
        }
    }

    pub open spec fn spec_item_id(self) -> i64 {
        match self {
            AuctionEvent::BidPlaced { item_id, .. } => item_id,
            AuctionEvent::BuyNowExecuted { item_id, .. } => item_id,
        }
    }

    pub open spec fn spec_timestamp(self) -> i64 {
        match self {
            AuctionEvent::BidPlaced { timestamp, .. } => timestamp,
            AuctionEvent::BuyNowExecuted { timestamp, .. } => timestamp,
        }
    }

    /// The kind of this event.
    pub fn kind(&self) -> (r: EventKind)
        ensures
            r == self.spec_kind(),
    {
        match self {
            AuctionEvent::BidPlaced { .. } => EventKind::BidPlaced,
            AuctionEvent::BuyNowExecuted { .. } => EventKind::BuyNowExecuted,
        }
    }

    /// The item (aggregate) that this event belongs to.
    pub fn item_id(&self) -> (r: i64)
        ensures
            r == self.spec_item_id(),
    {
        match self {
            AuctionEvent::BidPlaced { item_id, .. } => *item_id,
            AuctionEvent::BuyNowExecuted { item_id, .. } => *item_id,
        }
    }

    /// When this event was decided.
    pub fn timestamp(&self) -> (r: i64)
        ensures
            r == self.spec_timestamp(),
    {
        match self {
            AuctionEvent::BidPlaced { timestamp, .. } => *timestamp,
            AuctionEvent::BuyNowExecuted { timestamp, .. } => *timestamp,
        }
    }
}

/// An entry of the event log: a payload in its envelope. `id` is the log
/// sequence number, assigned on append; `version` is the per-aggregate
/// counter that the optimistic-concurrency gate checks.
#[derive(Debug)]
pub struct Event {
    pub id: i64,
    pub aggregate_id: i64,
    pub event_type: String,
    pub data: AuctionEvent,
    pub timestamp: i64,
    pub version: i64,
}

/// Whether `e` is the envelope, not yet appended, of `payload` at `version`:
/// id 0, the payload's item as aggregate, the payload's kind as type and the
/// payload's time as timestamp.
pub open spec fn is_envelope_of(e: Event, payload: AuctionEvent, version: i64) -> bool {
    &&& e.id == 0
    &&& e.aggregate_id == payload.spec_item_id()
    &&& e.event_type@ == kind_name(payload.spec_kind())
    &&& e.data == payload
    &&& e.timestamp == payload.spec_timestamp()
    &&& e.version == version
}

impl Event {
    /// Wraps a payload in an envelope for the given aggregate version.
    pub fn new(payload: AuctionEvent, version: i64) -> (r: Event)
        ensures
            is_envelope_of(r, payload, version),
    {
        let kind = payload.kind();
        Event {
            id: 0,
            aggregate_id: payload.item_id(),
            event_type: kind.name().to_owned(),
            data: payload,
            timestamp: payload.timestamp(),
            version,
        }
    }

    /// Whether the envelope's type names the kind of its payload. An event
    /// whose type names an unknown kind, or another kind than its payload's,
    /// is skipped by the projection.
    pub fn is_dispatchable(&self) -> (r: bool)
        ensures
            r == (kind_of_name(self.event_type@) == Some(self.data.spec_kind())),
    {
        match EventKind::parse(self.event_type.as_str()) {
            Some(k) => k == self.data.kind(),
            None => false,
        }
    }
}

} // verus!
