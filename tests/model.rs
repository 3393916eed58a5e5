use auction_service::events::{AuctionEvent, Event, EventKind};
use auction_service::model::{str_eq, AuctionStatus};

#[test]
fn status_names_round_trip() {
    for s in [AuctionStatus::Scheduled, AuctionStatus::Active, AuctionStatus::Completed] {
        assert_eq!(AuctionStatus::parse(s.name()), s);
    }
    assert_eq!(AuctionStatus::Active.name(), "ACTIVE");
    assert_eq!(AuctionStatus::Scheduled.name(), "SCHEDULED");
    assert_eq!(AuctionStatus::Completed.name(), "COMPLETED");
}

#[test]
fn unknown_status_names() {
    assert_eq!(AuctionStatus::parse("active"), AuctionStatus::Unknown);
    assert_eq!(AuctionStatus::parse(""), AuctionStatus::Unknown);
    assert_eq!(AuctionStatus::parse("CANCELLED"), AuctionStatus::Unknown);
}

#[test]
fn string_equality() {
    assert!(str_eq("abc", "abc"));
    assert!(!str_eq("abc", "abd"));
    assert!(!str_eq("abc", "ab"));
    assert!(str_eq("", ""));
}

#[test]
fn event_kind_names() {
    assert_eq!(EventKind::BidPlaced.name(), "BidPlaced");
    assert_eq!(EventKind::BuyNowExecuted.name(), "BuyNowExecuted");
    assert_eq!(EventKind::parse("BidPlaced"), Some(EventKind::BidPlaced));
    assert_eq!(EventKind::parse("BuyNowExecuted"), Some(EventKind::BuyNowExecuted));
    assert_eq!(EventKind::parse("ItemCreated"), None);
}

#[test]
fn envelope_follows_payload() {
    let p = AuctionEvent::BuyNowExecuted { item_id: 9, buyer_id: 2, price: 500000, timestamp: 77 };
    let e = Event::new(p, 4);
    assert_eq!(e.id, 0);
    assert_eq!(e.aggregate_id, 9);
    assert_eq!(e.event_type, "BuyNowExecuted");
    assert_eq!(e.data, p);
    assert_eq!(e.timestamp, 77);
    assert_eq!(e.version, 4);
    assert!(e.is_dispatchable());
}

#[test]
fn mismatched_envelope_is_not_dispatchable() {
    let p = AuctionEvent::BidPlaced { item_id: 9, bidder_id: 2, bid_amount: 100, timestamp: 77 };
    let mut e = Event::new(p, 1);
    e.event_type = "BuyNowExecuted".to_string();
    assert!(!e.is_dispatchable());
    e.event_type = "Unknown".to_string();
    assert!(!e.is_dispatchable());
}
