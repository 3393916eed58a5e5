use auction_service::commands::{Command, CommandAction, CommandError, CommandRun, RunPhase};
use auction_service::event_log::EventLog;
use auction_service::events::AuctionEvent;
use auction_service::model::{AuctionStatus, BuyNowCommand, Item, PlaceBidCommand};
use auction_service::projection::ProjectionStore;

const S: i64 = 1_000_000;

fn item(status: AuctionStatus, start_time: i64, end_time: i64) -> Item {
    Item {
        id: 1,
        title: "Chair".to_string(),
        description: "Oak chair".to_string(),
        starting_price: 10000,
        current_price: 10000,
        buy_now_price: 500000,
        start_time,
        end_time,
        seller: "seller".to_string(),
        status,
        created_at: 0,
    }
}

/// Runs one command to its reply against the in-memory log and store.
fn run(log: &mut EventLog, store: &ProjectionStore, cmd: Command, now: i64) -> Result<(), CommandError> {
    let mut run = CommandRun::new(cmd);
    let mut action = CommandAction::ReadSnapshot;
    loop {
        action = match action {
            CommandAction::ReadSnapshot => {
                let snapshot = store.item(cmd.item_id()).unwrap();
                let version = log.current_version(cmd.item_id());
                run.on_snapshot(snapshot, version, now)
            }
            CommandAction::Append(e) => {
                let outcome = log.append(e);
                run.on_append(outcome)
            }
            CommandAction::Reply(r) => return r,
        }
    }
}

/// Delivers every logged event to the store.
fn drain(log: &EventLog, store: &mut ProjectionStore) {
    for e in log.events() {
        store.apply(e);
    }
}

fn bid(bidder_id: i64, amount: i64) -> Command {
    Command::PlaceBid(PlaceBidCommand { item_id: 1, bidder_id, bid_amount: amount })
}

#[test]
fn happy_bid() {
    let mut log = EventLog::new();
    let mut store = ProjectionStore::new(vec![item(AuctionStatus::Active, 0, 100 * S)]);
    assert_eq!(run(&mut log, &store, bid(7, 11000), 5 * S), Ok(()));
    assert_eq!(log.len(), 1);
    let e = &log.events()[0];
    assert_eq!(e.version, 1);
    assert_eq!(e.data, AuctionEvent::BidPlaced { item_id: 1, bidder_id: 7, bid_amount: 11000, timestamp: 5 * S });
    drain(&log, &mut store);
    assert_eq!(store.item(1).unwrap().current_price, 11000);
    assert_eq!(store.bids().len(), 1);
    let b = store.bids()[0];
    assert_eq!((b.item_id, b.bidder_id, b.bid_amount), (1, 7, 11000));
}

#[test]
fn low_bid_after_happy_bid() {
    let mut log = EventLog::new();
    let mut store = ProjectionStore::new(vec![item(AuctionStatus::Active, 0, 100 * S)]);
    assert_eq!(run(&mut log, &store, bid(7, 11000), 5 * S), Ok(()));
    drain(&log, &mut store);
    let r = run(&mut log, &store, bid(8, 11000), 6 * S);
    assert_eq!(r, Err(CommandError::LowBid { bid_amount: 11000 }));
    assert_eq!(r.unwrap_err().code(), Some("LOW_BID"));
    assert_eq!(log.len(), 1);
}

#[test]
fn bid_collapses_to_buy_now() {
    let mut log = EventLog::new();
    let mut store = ProjectionStore::new(vec![item(AuctionStatus::Active, 0, 100 * S)]);
    assert_eq!(run(&mut log, &store, bid(7, 600000), 5 * S), Ok(()));
    assert_eq!(log.events()[0].data, AuctionEvent::BuyNowExecuted { item_id: 1, buyer_id: 7, price: 500000, timestamp: 5 * S });
    assert_eq!(log.events()[0].event_type, "BuyNowExecuted");
    drain(&log, &mut store);
    let it = store.item(1).unwrap();
    assert_eq!(it.status, AuctionStatus::Completed);
    assert_eq!(it.current_price, 500000);
    assert_eq!(store.bids()[0].bid_amount, 500000);
    // Once won, every later command is rejected.
    let r = run(&mut log, &store, Command::BuyNow(BuyNowCommand { item_id: 1, buyer_id: 9 }), 6 * S);
    assert_eq!(r, Err(CommandError::AlreadyEnded));
    assert_eq!(log.len(), 1);
}

#[test]
fn concurrent_contention_converges() {
    let mut log = EventLog::new();
    let mut store = ProjectionStore::new(vec![item(AuctionStatus::Active, 0, 100 * S)]);
    let n = 50;
    let cmds: Vec<Command> = (1..=n).map(|i| bid(100 + i, 10000 + i * 1000)).collect();
    let mut runs: Vec<CommandRun> = cmds.iter().map(|c| CommandRun::new(*c)).collect();
    let mut replies: Vec<Option<Result<(), CommandError>>> = vec![None; n as usize];
    // Each round, every unfinished run reads the same snapshot, then all
    // try to append; the projection is drained between rounds.
    while replies.iter().any(|r| r.is_none()) {
        let mut pending = Vec::new();
        for (i, r) in runs.iter_mut().enumerate() {
            if r.phase == RunPhase::Reading {
                let version = log.current_version(1);
                match r.on_snapshot(store.item(1).unwrap(), version, 5 * S) {
                    CommandAction::Append(e) => pending.push((i, e)),
                    CommandAction::Reply(res) => replies[i] = Some(res),
                    CommandAction::ReadSnapshot => unreachable!(),
                }
            }
        }
        for (i, e) in pending {
            match runs[i].on_append(log.append(e)) {
                CommandAction::Reply(res) => replies[i] = Some(res),
                CommandAction::ReadSnapshot => {}
                CommandAction::Append(_) => unreachable!(),
            }
        }
        drain(&log, &mut store);
    }
    assert!(replies.iter().all(|r| *r == Some(Ok(()))));
    assert_eq!(store.item(1).unwrap().current_price, 60000);
    let versions: Vec<i64> = log.events().iter().map(|e| e.version).collect();
    assert_eq!(versions, (1..=50).collect::<Vec<i64>>());
    assert_eq!(store.bids().len(), 50);
}

#[test]
fn lifecycle_end() {
    let t0 = 1000 * S;
    let mut log = EventLog::new();
    let mut store = ProjectionStore::new(vec![item(AuctionStatus::Active, t0, t0 + 5 * S)]);
    assert_eq!(run(&mut log, &store, bid(7, 11000), t0 + S), Ok(()));
    drain(&log, &mut store);
    let mut t = t0;
    while t <= t0 + 6 * S {
        store.advance_lifecycle(t);
        t += S;
    }
    assert_eq!(store.item(1).unwrap().status, AuctionStatus::Completed);
    let r = run(&mut log, &store, bid(8, 20000), t0 + 6 * S);
    assert_eq!(r, Err(CommandError::AlreadyEnded));
    assert_eq!(r.unwrap_err().code(), Some("ALREADY_ENDED"));
}

#[test]
fn buy_now_on_not_started() {
    let now = 1000 * S;
    let mut log = EventLog::new();
    let store = ProjectionStore::new(vec![item(AuctionStatus::Scheduled, now + 3600 * S, now + 7200 * S)]);
    let r = run(&mut log, &store, Command::BuyNow(BuyNowCommand { item_id: 1, buyer_id: 2 }), now);
    assert_eq!(r, Err(CommandError::NotStarted));
    assert_eq!(log.len(), 0);
}

#[test]
fn scheduler_activates_then_bids_are_accepted() {
    let t0 = 1000 * S;
    let mut log = EventLog::new();
    let mut store = ProjectionStore::new(vec![item(AuctionStatus::Scheduled, t0, t0 + 60 * S)]);
    assert_eq!(run(&mut log, &store, bid(7, 11000), t0), Err(CommandError::NotStarted));
    store.advance_lifecycle(t0 + S / 2);
    assert_eq!(store.item(1).unwrap().status, AuctionStatus::Active);
    assert_eq!(run(&mut log, &store, bid(7, 11000), t0 + S), Ok(()));
}
