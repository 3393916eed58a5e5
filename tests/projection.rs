use auction_service::commands::{decide_place_bid, CommandError};
use auction_service::events::{AuctionEvent, Event};
use auction_service::model::{AuctionStatus, Bid, Item, PlaceBidCommand};
use auction_service::projection::{apply_to_item, project_event, NewBid, ProjectionStore};

fn item(id: i64) -> Item {
    Item {
        id,
        title: "Vase".to_string(),
        description: "Blue vase".to_string(),
        starting_price: 10000,
        current_price: 10000,
        buy_now_price: 500000,
        start_time: 0,
        end_time: 1_000_000_000,
        seller: "s".to_string(),
        status: AuctionStatus::Active,
        created_at: 0,
    }
}

fn logged(id: i64, payload: AuctionEvent) -> Event {
    let mut e = Event::new(payload, id);
    e.id = id;
    e
}

fn placed(item_id: i64, bidder_id: i64, amount: i64, t: i64) -> AuctionEvent {
    AuctionEvent::BidPlaced { item_id, bidder_id, bid_amount: amount, timestamp: t }
}

#[test]
fn bid_above_price_moves_price_and_records_row() {
    let mut it = item(1);
    let row = apply_to_item(&mut it, &placed(1, 7, 11000, 5));
    assert_eq!(it.current_price, 11000);
    assert_eq!(row, Some(NewBid { item_id: 1, bidder_id: 7, bid_amount: 11000, bid_time: 5 }));
}

#[test]
fn bid_not_above_price_is_a_no_op() {
    let mut it = item(1);
    it.current_price = 12000;
    assert_eq!(apply_to_item(&mut it, &placed(1, 7, 11000, 5)), None);
    assert_eq!(apply_to_item(&mut it, &placed(1, 7, 12000, 5)), None);
    assert_eq!(it.current_price, 12000);
}

#[test]
fn event_for_another_item_is_a_no_op() {
    let mut it = item(1);
    assert_eq!(apply_to_item(&mut it, &placed(2, 7, 11000, 5)), None);
    assert_eq!(it.current_price, 10000);
}

#[test]
fn buy_now_completes_and_records_buyer() {
    let mut it = item(1);
    let p = AuctionEvent::BuyNowExecuted { item_id: 1, buyer_id: 3, price: 500000, timestamp: 9 };
    let row = apply_to_item(&mut it, &p);
    assert_eq!(it.status, AuctionStatus::Completed);
    assert_eq!(it.current_price, 500000);
    assert_eq!(row, Some(NewBid { item_id: 1, bidder_id: 3, bid_amount: 500000, bid_time: 9 }));
}

#[test]
fn second_buy_now_is_a_no_op() {
    let mut it = item(1);
    let p = AuctionEvent::BuyNowExecuted { item_id: 1, buyer_id: 3, price: 500000, timestamp: 9 };
    apply_to_item(&mut it, &p);
    let q = AuctionEvent::BuyNowExecuted { item_id: 1, buyer_id: 4, price: 600000, timestamp: 10 };
    assert_eq!(apply_to_item(&mut it, &q), None);
    assert_eq!(it.current_price, 500000);
}

#[test]
fn winner_then_commands_are_already_ended() {
    let mut it = item(1);
    let bid = PlaceBidCommand { item_id: 1, bidder_id: 7, bid_amount: 600000 };
    let ev = decide_place_bid(&it, &bid, 5).unwrap();
    assert_eq!(ev, AuctionEvent::BuyNowExecuted { item_id: 1, buyer_id: 7, price: 500000, timestamp: 5 });
    apply_to_item(&mut it, &ev);
    assert_eq!(it.status, AuctionStatus::Completed);
    let later = PlaceBidCommand { item_id: 1, bidder_id: 8, bid_amount: 700000 };
    assert_eq!(decide_place_bid(&it, &later, 6), Err(CommandError::AlreadyEnded));
}

#[test]
fn project_event_skips_unknown_types() {
    let mut it = item(1);
    let mut e = logged(1, placed(1, 7, 11000, 5));
    e.event_type = "ItemRenamed".to_string();
    assert_eq!(project_event(&mut it, &e), None);
    assert_eq!(it.current_price, 10000);
    e.event_type = "BidPlaced".to_string();
    assert!(project_event(&mut it, &e).is_some());
    assert_eq!(it.current_price, 11000);
}

#[test]
fn price_is_the_running_max_of_bids() {
    let mut store = ProjectionStore::new(vec![item(1)]);
    let amounts = [12000, 11000, 15000, 13000, 15000, 14000];
    for (i, a) in amounts.iter().enumerate() {
        store.apply(&logged(i as i64 + 1, placed(1, i as i64, *a, i as i64)));
    }
    assert_eq!(store.item(1).unwrap().current_price, 15000);
    let rows: Vec<i64> = store.bids().iter().map(|b| b.bid_amount).collect();
    assert_eq!(rows, vec![12000, 15000]);
}

#[test]
fn highest_bid_wins_in_any_order() {
    let mut store = ProjectionStore::new(vec![item(1)]);
    let amounts = [40000, 60000, 20000, 50000];
    for (i, a) in amounts.iter().enumerate() {
        store.apply(&logged(i as i64 + 1, placed(1, i as i64, *a, 0)));
    }
    assert_eq!(store.item(1).unwrap().current_price, 60000);
}

#[test]
fn replaying_a_prefix_changes_nothing() {
    let mut store = ProjectionStore::new(vec![item(1), item(2)]);
    let log = vec![
        logged(1, placed(1, 7, 11000, 1)),
        logged(2, placed(2, 8, 20000, 2)),
        logged(3, placed(1, 9, 30000, 3)),
        logged(4, AuctionEvent::BuyNowExecuted { item_id: 2, buyer_id: 4, price: 500000, timestamp: 4 }),
    ];
    for e in &log {
        store.apply(e);
    }
    let prices: Vec<i64> = store.items().iter().map(|i| i.current_price).collect();
    let bids: Vec<Bid> = store.bids().clone();
    for e in &log[..3] {
        store.apply(e);
    }
    let again: Vec<i64> = store.items().iter().map(|i| i.current_price).collect();
    assert_eq!(again, prices);
    assert_eq!(store.bids(), &bids);
    assert_eq!(bids.len(), 4);
    assert_eq!(store.item(2).unwrap().status, AuctionStatus::Completed);
}

#[test]
fn redelivery_is_recorded_once() {
    let mut store = ProjectionStore::new(vec![item(1)]);
    let e = logged(5, placed(1, 7, 11000, 1));
    store.apply(&e);
    assert!(store.is_processed(5));
    store.apply(&e);
    assert_eq!(store.bids().len(), 1);
    assert_eq!(store.bids()[0], Bid { id: 1, item_id: 1, bidder_id: 7, bid_amount: 11000, bid_time: 1 });
}

#[test]
fn missing_item_is_none() {
    let store = ProjectionStore::new(vec![item(1)]);
    assert!(store.item(2).is_none());
    assert!(!store.is_processed(1));
}

#[test]
fn item_lookup_gives_the_first_row() {
    let mut second = item(1);
    second.current_price = 99999;
    let store = ProjectionStore::new(vec![item(2), item(1), second]);
    assert_eq!(store.item(1).unwrap().current_price, 10000);
}
