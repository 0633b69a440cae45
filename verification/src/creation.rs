use crate::accounts::CreateAuction;
use crate::error::AuctionError;
use crate::identity::Identity;
use crate::record::Auction;
use crate::transfer::{Deposit, TransferStatus};
use vstd::prelude::*;

verus! {

/// What enters the vault when an auction is created: one unit of the asset,
/// from the seller's account.
pub open spec fn create_deposit(accounts: CreateAuction) -> Deposit {
    Deposit { source: accounts.authority_token_account, owner: accounts.authority, units: 1 }
}

/// Whether `auction` is the record of a newly created auction on the given
/// terms: it runs, and nobody has bid.
pub open spec fn is_new(
    auction: Auction,
    accounts: CreateAuction,
    end_time: i64,
    min_bid: u64,
) -> bool {
    &&& auction.authority == accounts.authority
    &&& auction.end_time == end_time
    &&& auction.min_bid == min_bid
    &&& auction.highest_bid == 0
    &&& auction.highest_bidder.is_null()
    &&& auction.is_active
    &&& auction.bump == accounts.bump
}

/// Says what the host is to move into the vault for a new auction.
pub fn create_transfer(accounts: &CreateAuction) -> (deposit: Deposit)
    ensures
        deposit == create_deposit(*accounts),
{
    Deposit { source: accounts.authority_token_account, owner: accounts.authority, units: 1 }
}

/// Creates the record of an auction on the given terms, given how the host's
/// attempt at the deposit of `create_transfer` ended. Without the deposit
/// there is no record.
pub fn create_auction(
    accounts: &CreateAuction,
    end_time: i64,
    min_bid: u64,
    status: TransferStatus,
) -> (created: Result<Auction, AuctionError>)
    ensures
        status is Failed ==> created == Err::<Auction, AuctionError>(
            AuctionError::TransferFailure,
        ),
        status is Completed ==> created is Ok,
        created matches Ok(auction) ==> is_new(auction, *accounts, end_time, min_bid)
            && auction.well_formed(),
{
    let auction = Auction {
        authority: accounts.authority,
        end_time,
        min_bid,
        highest_bid: 0,
        highest_bidder: Identity::null(),
        is_active: true,
        bump: accounts.bump,
    };
    match status {
        TransferStatus::Failed => Err(AuctionError::TransferFailure),
        TransferStatus::Completed => Ok(auction),
    }
}

} // verus!
