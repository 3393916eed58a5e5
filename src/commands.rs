use vstd::prelude::*;

use crate::event_log::AppendError;
use crate::events::{is_envelope_of, AuctionEvent, Event};
use crate::model::{AuctionStatus, BuyNowCommand, Item, PlaceBidCommand};

verus! {

/// How many version conflicts one command tolerates before it gives up.
pub const MAX_RETRIES: u32 = 100;

/// Why a command was not accepted.
#[derive(Debug, Clone, PartialEq, Eq)]
pub enum CommandError {
    /// The auction has not started yet.
    NotStarted,
    /// The auction is over.
    AlreadyEnded,
    /// The bid does not exceed the current price.
    LowBid { bid_amount: i64 },
    /// The item is in no status that the lifecycle knows.
    InvalidStatus,
    /// Every attempt lost the race for the next version.
    MaxRetriesExceeded,
    /// The store could not be read or written.
    Storage(String),
    /// The event was appended but could not be published.
    Publish(String),
}

/// The machine-readable code of a domain error; infrastructure errors have none.
pub open spec fn error_code(e: CommandError) -> Option<Seq<char>> {
    match e {
        CommandError::NotStarted => Some("NOT_STARTED"@),
        CommandError::AlreadyEnded => Some("ALREADY_ENDED"@),
        CommandError::LowBid { .. } => Some("LOW_BID"@),
        CommandError::InvalidStatus => Some("INVALID_STATUS"@),
        CommandError::MaxRetriesExceeded => Some("MAX_RETRIES_EXCEEDED"@),
        CommandError::Storage(_) => None,
        CommandError::Publish(_) => None,
    }
}

impl CommandError {
    /// Whether this error is the caller's (a rejected command) rather than
    /// the infrastructure's.
    pub fn is_domain(&self) -> (r: bool)
        ensures
            r == (error_code(*self) is Some),
    {
        match self {
            CommandError::Storage(_) | CommandError::Publish(_) => false,
            _ => true,
        }
    }

    /// The code of a domain error.
    pub fn code(&self) -> (r: Option<&'static str>)
        ensures
            r is Some == error_code(*self) is Some,
            r is Some ==> r->0@ == error_code(*self)->0,
    {
        match self {
            CommandError::NotStarted => Some("NOT_STARTED"),
            CommandError::AlreadyEnded => Some("ALREADY_ENDED"),
            CommandError::LowBid { .. } => Some("LOW_BID"),
            CommandError::InvalidStatus => Some("INVALID_STATUS"),
            CommandError::MaxRetriesExceeded => Some("MAX_RETRIES_EXCEEDED"),
            CommandError::Storage(_) => None,
            CommandError::Publish(_) => None,
        }
    }
}

/// Whether an item accepts commands at `now`, and if not, why. The checks
/// come in this order: not started (by time or by status), ended (by status
/// or by time), then an unknown status.
pub open spec fn availability(item: Item, now: i64) -> Result<(), CommandError> {
    if now < item.start_time {
        Err(CommandError::NotStarted)
    } else {
        match item.status {
            AuctionStatus::Scheduled => Err(CommandError::NotStarted),
            AuctionStatus::Completed => Err(CommandError::AlreadyEnded),
            _ => if now > item.end_time {
                Err(CommandError::AlreadyEnded)
            } else if item.status == AuctionStatus::Active {
                Ok(())
            } else {
                Err(CommandError::InvalidStatus)
            },
        }
    }
}

/// The event that a bid on `item` at `now` produces. A bid that reaches the
/// buy-now price buys the item at that price, not at the bid.
pub open spec fn bid_decision(item: Item, cmd: PlaceBidCommand, now: i64) -> Result<
    AuctionEvent,
    CommandError,
> {
    match availability(item, now) {
        Err(e) => Err(e),
        Ok(_) => if cmd.bid_amount <= item.current_price {
            Err(CommandError::LowBid { bid_amount: cmd.bid_amount })
        } else if cmd.bid_amount >= item.buy_now_price {
            Ok(
                AuctionEvent::BuyNowExecuted {
                    item_id: cmd.item_id,
                    buyer_id: cmd.bidder_id,
                    price: item.buy_now_price,
                    timestamp: now,
                },
            )
        } else {
            Ok(
                AuctionEvent::BidPlaced {
                    item_id: cmd.item_id,
                    bidder_id: cmd.bidder_id,
                    bid_amount: cmd.bid_amount,
                    timestamp: now,
                },
            )
        },
    }
}

/// The event that a buy-now on `item` at `now` produces; the price is the
/// item's own buy-now price.
pub open spec fn buy_now_decision(item: Item, cmd: BuyNowCommand, now: i64) -> Result<
    AuctionEvent,
    CommandError,
> {
    match availability(item, now) {
        Err(e) => Err(e),
        Ok(_) => Ok(
            AuctionEvent::BuyNowExecuted {
                item_id: cmd.item_id,
                buyer_id: cmd.buyer_id,
                price: item.buy_now_price,
                timestamp: now,
            },
        ),
    }
}

/// Checks whether an item accepts commands at `now`.
pub fn check_availability(item: &Item, now: i64) -> (r: Result<(), CommandError>)
    ensures
        r == availability(*item, now),
{
    if now < item.start_time {
        return Err(CommandError::NotStarted);
    }
    match item.status {
        AuctionStatus::Scheduled => Err(CommandError::NotStarted),
        AuctionStatus::Completed => Err(CommandError::AlreadyEnded),
        AuctionStatus::Active => if now > item.end_time {
            Err(CommandError::AlreadyEnded)
        } else {
            Ok(())
        },
        AuctionStatus::Unknown => if now > item.end_time {
            Err(CommandError::AlreadyEnded)
        } else {
            Err(CommandError::InvalidStatus)
        },
    }
}

/// Validates a bid against a snapshot of its item and builds its event.
pub fn decide_place_bid(item: &Item, cmd: &PlaceBidCommand, now: i64) -> (r: Result<
    AuctionEvent,
    CommandError,
>)
    ensures
        r == bid_decision(*item, *cmd, now),
{
    check_availability(item, now)?;
    if cmd.bid_amount <= item.current_price {
        Err(CommandError::LowBid { bid_amount: cmd.bid_amount })
    } else if cmd.bid_amount >= item.buy_now_price {
        Ok(
            AuctionEvent::BuyNowExecuted {
                item_id: cmd.item_id,
                buyer_id: cmd.bidder_id,
                price: item.buy_now_price,
                timestamp: now,
            },
        )
    } else {
        Ok(
            AuctionEvent::BidPlaced {
                item_id: cmd.item_id,
                bidder_id: cmd.bidder_id,
                bid_amount: cmd.bid_amount,
                timestamp: now,
            },
        )
    }
}

/// Validates a buy-now against a snapshot of its item and builds its event.
pub fn decide_buy_now(item: &Item, cmd: &BuyNowCommand, now: i64) -> (r: Result<
    AuctionEvent,
    CommandError,
>)
    ensures
        r == buy_now_decision(*item, *cmd, now),
{
    check_availability(item, now)?;
    Ok(
        AuctionEvent::BuyNowExecuted {
            item_id: cmd.item_id,
            buyer_id: cmd.buyer_id,
            price: item.buy_now_price,
            timestamp: now,
        },
    )
}

/// A command that the command path runs.
#[derive(Debug, Clone, Copy, PartialEq, Eq, Structural)]
pub enum Command {
    PlaceBid(PlaceBidCommand),
    BuyNow(BuyNowCommand),
}

/// The event that `cmd` produces on a snapshot of its item at `now`.
pub open spec fn decision(cmd: Command, item: Item, now: i64) -> Result<AuctionEvent, CommandError> {
    match cmd {
        Command::PlaceBid(c) => bid_decision(item, c, now),
        Command::BuyNow(c) => buy_now_decision(item, c, now),
    }
}

impl Command {
    pub open spec fn spec_item_id(self) -> i64 {
        match self {
            Command::PlaceBid(c) => c.item_id,
            Command::BuyNow(c) => c.item_id,
        }
    }

    /// The item that this command addresses.
    pub fn item_id(&self) -> (r: i64)
        ensures
            r == self.spec_item_id(),
    {
        match self {
            Command::PlaceBid(c) => c.item_id,
            Command::BuyNow(c) => c.item_id,
        }
    }

    /// Validates this command against a snapshot of its item and builds its
    /// event.
    pub fn decide(&self, item: &Item, now: i64) -> (r: Result<AuctionEvent, CommandError>)
        ensures
            r == decision(*self, *item, now),
    {
        match self {
            Command::PlaceBid(c) => decide_place_bid(item, c, now),
            Command::BuyNow(c) => decide_buy_now(item, c, now),
        }
    }
}

/// Where a command run stands.
#[derive(Debug, Clone, Copy, PartialEq, Eq, Structural)]
pub enum RunPhase {
    /// It waits for a fresh snapshot of its item and the item's version.
    Reading,
    /// It waits for the outcome of appending its event.
    Appending,
    /// It has replied.
    Finished,
}

/// What the driver of a command run is to do next.
#[derive(Debug)]
pub enum CommandAction {
    /// Read the item and its current version afresh, and the time.
    ReadSnapshot,
    /// Append this event to the log and publish it.
    Append(Event),
    /// Answer the caller; the run is over.
    Reply(Result<(), CommandError>),
}

/// The decisions of one command under optimistic concurrency: each attempt
/// reads a snapshot, validates, and appends an event at the next version; a
/// version conflict starts a new attempt, up to `MAX_RETRIES` of them.
#[derive(Debug)]
pub struct CommandRun {
    pub command: Command,
    /// Version conflicts met so far.
    pub conflicts: u32,
    pub phase: RunPhase,
}

/// One snapshot step of a run taken at `now`: a valid command asks to append
/// its event, for its own item, at the version after `current_version`; an
/// invalid one is answered with its rejection at once, appending nothing.
pub open spec fn snapshot_step(
    before: CommandRun,
    after: CommandRun,
    item: Item,
    current_version: i64,
    now: i64,
    action: CommandAction,
) -> bool {
    &&& after.wf()
    &&& after.command == before.command
    &&& after.conflicts == before.conflicts
    &&& match decision(before.command, item, now) {
        Ok(payload) => {
            &&& action matches CommandAction::Append(e)
            &&& is_envelope_of(e, payload, (current_version + 1) as i64)
            &&& e.aggregate_id == before.command.spec_item_id()
            &&& after.phase == RunPhase::Appending
        },
        Err(err) => {
            &&& action == CommandAction::Reply(Err(err))
            &&& after.phase == RunPhase::Finished
        },
    }
}

impl CommandRun {
    /// A run that has not finished has attempts left.
    pub open spec fn wf(&self) -> bool {
        self.phase != RunPhase::Finished ==> self.conflicts < MAX_RETRIES
    }

    /// A run of `command`; its driver starts by reading a snapshot.
    pub fn new(command: Command) -> (r: CommandRun)
        ensures
            r.wf(),
            r.command == command,
            r.conflicts == 0,
            r.phase == RunPhase::Reading,
    {
        CommandRun { command, conflicts: 0, phase: RunPhase::Reading }
    }

    /// Takes a fresh snapshot: the item, its current version and the time.
    /// A valid command asks to append its event at the next version; an
    /// invalid one is rejected at once.
    pub fn on_snapshot(&mut self, item: &Item, current_version: i64, now: i64) -> (r:
        CommandAction)
        requires
            old(self).wf(),
            old(self).phase == RunPhase::Reading,
            current_version < i64::MAX,
        ensures
            snapshot_step(*old(self), *final(self), *item, current_version, now, r),
    {
        match self.command.decide(item, now) {
            Ok(payload) => {
                self.phase = RunPhase::Appending;
                CommandAction::Append(Event::new(payload, current_version + 1))
            },
            Err(err) => {
                self.phase = RunPhase::Finished;
                CommandAction::Reply(Err(err))
            },
        }
    }

    /// The snapshot could not be read: the run fails with that storage error.
    pub fn on_read_error(&mut self, message: String) -> (r: CommandAction)
        requires
            old(self).phase == RunPhase::Reading,
        ensures
            final(self).wf(),
            final(self).command == old(self).command,
            final(self).conflicts == old(self).conflicts,
            final(self).phase == RunPhase::Finished,
            r == CommandAction::Reply(Err(CommandError::Storage(message))),
    {
        self.phase = RunPhase::Finished;
        CommandAction::Reply(Err(CommandError::Storage(message)))
    }

    /// Takes the outcome of an append. Success answers `Ok`; a version
    /// conflict starts a new attempt while attempts are left; any other
    /// failure is final, and a failed publish is never retried under a new
    /// version.
    pub fn on_append(&mut self, outcome: Result<i64, AppendError>) -> (r: CommandAction)
        requires
            old(self).wf(),
            old(self).phase == RunPhase::Appending,
        ensures
            final(self).wf(),
            final(self).command == old(self).command,
            match outcome {
                Ok(_) => {
                    &&& r == CommandAction::Reply(Ok(()))
                    &&& final(self).phase == RunPhase::Finished
                    &&& final(self).conflicts == old(self).conflicts
                },
                Err(AppendError::VersionConflict) => {
                    &&& final(self).conflicts == old(self).conflicts + 1
                    &&& if final(self).conflicts < MAX_RETRIES {
                        &&& r == CommandAction::ReadSnapshot
                        &&& final(self).phase == RunPhase::Reading
                    } else {
                        &&& r == CommandAction::Reply(Err(CommandError::MaxRetriesExceeded))
                        &&& final(self).phase == RunPhase::Finished
                    }
                },
                Err(AppendError::Storage(m)) => {
                    &&& r == CommandAction::Reply(Err(CommandError::Storage(m)))
                    &&& final(self).phase == RunPhase::Finished
                    &&& final(self).conflicts == old(self).conflicts
                },
                Err(AppendError::Publish(m)) => {
                    &&& r == CommandAction::Reply(Err(CommandError::Publish(m)))
                    &&& final(self).phase == RunPhase::Finished
                    &&& final(self).conflicts == old(self).conflicts
                },
            },
    {
        match outcome {
            Ok(_) => {
                self.phase = RunPhase::Finished;
                CommandAction::Reply(Ok(()))
            },
            Err(AppendError::VersionConflict) => {
                self.conflicts = self.conflicts + 1;
                if self.conflicts < MAX_RETRIES {
                    self.phase = RunPhase::Reading;
                    CommandAction::ReadSnapshot
                } else {
                    self.phase = RunPhase::Finished;
                    CommandAction::Reply(Err(CommandError::MaxRetriesExceeded))
                }
            },
            Err(AppendError::Storage(m)) => {
                self.phase = RunPhase::Finished;
                CommandAction::Reply(Err(CommandError::Storage(m)))
            },
            Err(AppendError::Publish(m)) => {
                self.phase = RunPhase::Finished;
                CommandAction::Reply(Err(CommandError::Publish(m)))
            },
        }
    }
}

} // verus!
