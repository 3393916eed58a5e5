use vstd::prelude::*;

verus! {

/// Lifecycle state of an auction item.
#[derive(Debug, Clone, Copy, PartialEq, Eq, Structural)]
pub enum AuctionStatus {
    Scheduled,
    Active,
    Completed,
    /// A stored status name that is none of the three above.
    Unknown,
}

/// The name under which a status is stored.
pub open spec fn status_name(s: AuctionStatus) -> Seq<char> {
    match s {
        AuctionStatus::Scheduled => "SCHEDULED"@,
        AuctionStatus::Active => "ACTIVE"@,
        AuctionStatus::Completed => "COMPLETED"@,
        AuctionStatus::Unknown => "UNKNOWN"@,
    }
}

/// The status that a stored name denotes.
pub open spec fn status_of_name(s: Seq<char>) -> AuctionStatus {
    if s == "SCHEDULED"@ {
        AuctionStatus::Scheduled
    } else if s == "ACTIVE"@ {
        AuctionStatus::Active
    } else if s == "COMPLETED"@ {
        AuctionStatus::Completed
    } else {
        AuctionStatus::Unknown
    }
}

/// Whether two strings hold the same characters.
pub fn str_eq(a: &str, b: &str) -> (r: bool)
    ensures
        r == (a@ == b@),
{
    let n = a.unicode_len();
    if n != b.unicode_len() {
        return false;
    }
    let mut i: usize = 0;
    while i < n
        invariant
            n == a@.len(),
            n == b@.len(),
            i <= n,
            forall|j: int| 0 <= j < i ==> a@[j] == b@[j],
        decreases n - i,
    {
        if a.get_char(i) != b.get_char(i) {
            return false;
        }
        i = i + 1;
    }
    assert(a@ =~= b@);
    true
}

impl AuctionStatus {
    /// The stored name of this status.
    pub fn name(&self) -> (r: &'static str)
        ensures
            r@ == status_name(*self),
            *self != AuctionStatus::Unknown ==> status_of_name(r@) == *self,
    {
        proof {
            reveal_strlit("SCHEDULED");
            reveal_strlit("ACTIVE");
            reveal_strlit("COMPLETED");
            reveal_strlit("UNKNOWN");
            assert("SCHEDULED"@[0] != "ACTIVE"@[0]);
            assert("SCHEDULED"@[0] != "COMPLETED"@[0]);
            assert("ACTIVE"@[0] != "COMPLETED"@[0]);
        }
        match self {
            AuctionStatus::Scheduled => "SCHEDULED",
            AuctionStatus::Active => "ACTIVE",
            AuctionStatus::Completed => "COMPLETED",
            AuctionStatus::Unknown => "UNKNOWN",
        }
    }

    /// Reads a stored status name; any other text is `Unknown`.
    pub fn parse(s: &str) -> (r: AuctionStatus)
        ensures
            r == status_of_name(s@),
    {
        if str_eq(s, "SCHEDULED") {
            AuctionStatus::Scheduled
        } else if str_eq(s, "ACTIVE") {
            AuctionStatus::Active
        } else if str_eq(s, "COMPLETED") {
            AuctionStatus::Completed
        } else {
            AuctionStatus::Unknown
        }
    }
}

/// An auction item as the query side holds it. Prices are in the smallest
/// currency unit; times are microseconds since the Unix epoch.
pub struct Item {
    pub id: i64,
    pub title: String,
    pub description: String,
    pub starting_price: i64,
    pub current_price: i64,
    pub buy_now_price: i64,
    pub start_time: i64,
    pub end_time: i64,
    pub seller: String,
    pub status: AuctionStatus,
    pub created_at: i64,
}

impl Item {
    /// The data-model invariant of an item: its prices are ordered and it
    /// starts before it ends.
    pub open spec fn wf(&self) -> bool {
        &&& 0 <= self.starting_price <= self.current_price <= self.buy_now_price
        &&& self.start_time < self.end_time
    }
}

/// A bid row of the query side. A buy-now outcome is recorded as one too.
#[derive(Debug, Clone, Copy, PartialEq, Eq, Structural)]
pub struct Bid {
    pub id: i64,
    pub item_id: i64,
    pub bidder_id: i64,
    pub bid_amount: i64,
    pub bid_time: i64,
}

/// A request to bid on an item.
#[derive(Debug, Clone, Copy, PartialEq, Eq, Structural)]
pub struct PlaceBidCommand {
    pub item_id: i64,
    pub bidder_id: i64,
    pub bid_amount: i64,
}

/// A request to buy an item at once at its buy-now price.
#[derive(Debug, Clone, Copy, PartialEq, Eq, Structural)]
pub struct BuyNowCommand {
    pub item_id: i64,
    pub buyer_id: i64,
}

} // verus!
