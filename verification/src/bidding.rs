use crate::accounts::Bid;
use crate::error::AuctionError;
use crate::record::Auction;
use crate::transfer::{BidTransfers, Payment, TransferStatus};
use vstd::prelude::*;

verus! {

/// Why a bid of `amount` at time `now` is refused, if it is. The checks are
/// made in this order, and the first that fails gives the error.
pub open spec fn bid_refusal(auction: Auction, amount: u64, now: i64) -> Option<AuctionError> {
    if !auction.is_active {
        Some(AuctionError::AuctionInactive)
    } else if now >= auction.end_time {
        Some(AuctionError::AuctionEnded)
    } else if amount <= auction.highest_bid || amount < auction.min_bid {
        Some(AuctionError::BidTooLow)
    } else {
        None
    }
}

/// The currency that a bid of `amount` moves once it has passed the checks.
/// The refund is the whole of the bid that was leading, and goes to the
/// party that the caller named.
pub open spec fn bid_moves(auction: Auction, accounts: Bid, amount: u64) -> BidTransfers {
    BidTransfers {
        payment: Payment { from: accounts.bidder, to: auction.authority, amount },
        refund: if auction.highest_bid > 0 {
            Some(
                Payment {
                    from: auction.authority,
                    to: accounts.previous_bidder,
                    amount: auction.highest_bid,
                },
            )
        } else {
            None
        },
    }
}

/// The record once a bid of `amount` has been taken.
pub open spec fn after_bid(auction: Auction, accounts: Bid, amount: u64) -> Auction {
    Auction { highest_bid: amount, highest_bidder: accounts.bidder, ..auction }
}

/// How a bid ends: refused by a check, failed in its transfers, or taken.
pub open spec fn bid_outcome(
    auction: Auction,
    amount: u64,
    now: i64,
    status: TransferStatus,
) -> Result<(), AuctionError> {
    match bid_refusal(auction, amount, now) {
        Some(refusal) => Err(refusal),
        None => match status {
            TransferStatus::Failed => Err(AuctionError::TransferFailure),
            TransferStatus::Completed => Ok(()),
        },
    }
}

fn check_bid(auction: &Auction, amount: u64, now: i64) -> (refusal: Option<AuctionError>)
    ensures
        refusal == bid_refusal(*auction, amount, now),
{
    if !auction.is_active {
        return Some(AuctionError::AuctionInactive);
    }
    if now >= auction.end_time {
        return Some(AuctionError::AuctionEnded);
    }
    if amount <= auction.highest_bid {
        return Some(AuctionError::BidTooLow);
    }
    if amount < auction.min_bid {
        return Some(AuctionError::BidTooLow);
    }
    None
}

/// Checks a bid of `amount` at time `now`, and says which currency the host
/// is to move for it, in which order. Nothing is to be moved for a bid that
/// is refused.
pub fn bid_transfers(auction: &Auction, accounts: &Bid, amount: u64, now: i64) -> (plan: Result<
    BidTransfers,
    AuctionError,
>)
    ensures
        plan == match bid_refusal(*auction, amount, now) {
            Some(refusal) => Err::<BidTransfers, AuctionError>(refusal),
            None => Ok(bid_moves(*auction, *accounts, amount)),
        },
{
    if let Some(refusal) = check_bid(auction, amount, now) {
        return Err(refusal);
    }
    let payment = Payment { from: accounts.bidder, to: auction.authority, amount };
    let refund = if auction.highest_bid > 0 {
        Some(
            Payment {
                from: auction.authority,
                to: accounts.previous_bidder,
                amount: auction.highest_bid,
            },
        )
    } else {
        None
    };
    Ok(BidTransfers { payment, refund })
}

/// Places a bid of `amount` at time `now`, given how the host's attempt at
/// the transfers of `bid_transfers` ended. The bid is recorded only when it
/// passes every check and its transfers were completed: the bidder then
/// leads with `amount`. In every other case the record stays as it was.
pub fn bid(
    auction: &mut Auction,
    accounts: &Bid,
    amount: u64,
    now: i64,
    status: TransferStatus,
) -> (outcome: Result<(), AuctionError>)
    ensures
        outcome == bid_outcome(*old(auction), amount, now, status),
        outcome is Ok ==> *final(auction) == after_bid(*old(auction), *accounts, amount),
        outcome is Err ==> *final(auction) == *old(auction),
        outcome is Ok ==> final(auction).highest_bid > old(auction).highest_bid,
        old(auction).well_formed() && !accounts.bidder.is_null() ==> final(auction).well_formed(),
{
    if let Some(refusal) = check_bid(auction, amount, now) {
        return Err(refusal);
    }
    match status {
        TransferStatus::Failed => Err(AuctionError::TransferFailure),
        TransferStatus::Completed => {
            auction.highest_bid = amount;
            auction.highest_bidder = accounts.bidder;
            Ok(())
        },
    }
}

} // verus!
