use crate::accounts::{Bid, EndAuction};
use crate::bidding::{after_bid, bid_moves, bid_outcome};
use crate::record::Auction;
use crate::settlement::{after_end, end_outcome};
use crate::transfer::{Payment, TransferStatus};
use vstd::prelude::*;

verus! {

/// One call on an auction record, with all that decides how it ends.
pub enum Call {
    /// A call of `bid`.
    Bid { accounts: Bid, amount: u64, now: i64, status: TransferStatus },
    /// A call of `end_auction`.
    End { accounts: EndAuction, now: i64, status: TransferStatus },
}

impl Call {
    /// Whether the call, made on `auction`, succeeds.
    pub open spec fn accepted(self, auction: Auction) -> bool {
        match self {
            Call::Bid { accounts, amount, now, status } => bid_outcome(
                auction,
                amount,
                now,
                status,
            ) is Ok,
            Call::End { accounts, now, status } => end_outcome(auction, accounts, now, status) is Ok,
        }
    }

    /// Whether the call is a bid that, made on `auction`, is taken.
    pub open spec fn is_accepted_bid(self, auction: Auction) -> bool {
        self is Bid && self.accepted(auction)
    }

    /// The record that the call, made on `auction`, leaves.
    pub open spec fn apply(self, auction: Auction) -> Auction {
        if self.accepted(auction) {
            match self {
                Call::Bid { accounts, amount, now, status } => after_bid(auction, accounts, amount),
                Call::End { accounts, now, status } => after_end(auction),
            }
        } else {
            auction
        }
    }

    /// The currency that the call, made on `auction`, moves. A call that
    /// fails moves none.
    pub open spec fn payments(self, auction: Auction) -> Seq<Payment> {
        match self {
            Call::Bid { accounts, amount, now, status } => if self.accepted(auction) {
                bid_moves(auction, accounts, amount).in_order()
            } else {
                Seq::empty()
            },
            Call::End { accounts, now, status } => Seq::empty(),
        }
    }

    /// The units of the asset that the call, made on `auction`, takes out of
    /// the vault. A call that fails takes none.
    pub open spec fn released(self, auction: Auction) -> int {
        match self {
            Call::Bid { accounts, amount, now, status } => 0,
            Call::End { accounts, now, status } => if self.accepted(auction) {
                1
            } else {
                0
            },
        }
    }

    /// Whether the call, made on `auction`, keeps to what the bookkeeping of
    /// payments relies on: a bid that is taken comes from somebody other
    /// than the seller, and names the leading bidder as the one to refund.
    pub open spec fn regular(self, auction: Auction) -> bool {
        match self {
            Call::Bid { accounts, amount, now, status } => self.accepted(auction) ==> {
                &&& accounts.bidder != auction.authority
                &&& auction.highest_bid > 0 ==> accounts.previous_bidder == auction.highest_bidder
            },
            Call::End { accounts, now, status } => true,
        }
    }

    /// Whether the call, made on `auction`, leaves a leading bidder that is
    /// somebody: a bid that is taken does not come from the null identity.
    pub open spec fn names_bidder(self, auction: Auction) -> bool {
        match self {
            Call::Bid { accounts, amount, now, status } => self.accepted(auction)
                ==> !accounts.bidder.is_null(),
            Call::End { accounts, now, status } => true,
        }
    }
}

/// The record that the calls, made in turn on `start`, leave.
pub open spec fn replay(start: Auction, calls: Seq<Call>) -> Auction
    decreases calls.len(),
{
    if calls.len() == 0 {
        start
    } else {
        calls.last().apply(replay(start, calls.drop_last()))
    }
}

/// The currency that the calls, made in turn on `start`, move.
pub open spec fn payments_of(start: Auction, calls: Seq<Call>) -> Seq<Payment>
    decreases calls.len(),
{
    if calls.len() == 0 {
        Seq::empty()
    } else {
        payments_of(start, calls.drop_last()) + calls.last().payments(
            replay(start, calls.drop_last()),
        )
    }
}

/// The units of the asset that the calls, made in turn on `start`, take out
/// of the vault.
pub open spec fn released_by(start: Auction, calls: Seq<Call>) -> int
    decreases calls.len(),
{
    if calls.len() == 0 {
        0
    } else {
        released_by(start, calls.drop_last()) + calls.last().released(
            replay(start, calls.drop_last()),
        )
    }
}

/// Whether every call is regular on the record on which it is made.
pub open spec fn regular_run(start: Auction, calls: Seq<Call>) -> bool
    decreases calls.len(),
{
    calls.len() == 0 || (regular_run(start, calls.drop_last()) && calls.last().regular(
        replay(start, calls.drop_last()),
    ))
}

/// Whether every bid that is taken comes from somebody.
pub open spec fn named_run(start: Auction, calls: Seq<Call>) -> bool
    decreases calls.len(),
{
    calls.len() == 0 || (named_run(start, calls.drop_last()) && calls.last().names_bidder(
        replay(start, calls.drop_last()),
    ))
}

} // verus!
