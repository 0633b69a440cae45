use crate::identity::Identity;
use vstd::prelude::*;

verus! {

/// The parties to the creation of an auction.
#[derive(Clone, Copy, Debug, PartialEq, Eq)]
pub struct CreateAuction {
    /// The seller, who signs for the creation.
    pub authority: Identity,
    /// The seller's account that holds the asset to be auctioned.
    pub authority_token_account: Identity,
    /// The nonce of the address derived for the new record.
    pub bump: u8,
}

/// The parties to a bid.
#[derive(Clone, Copy, Debug, PartialEq, Eq)]
pub struct Bid {
    /// Who bids, and pays.
    pub bidder: Identity,
    /// Whom the caller names as the bidder to refund.
    pub previous_bidder: Identity,
}

/// The parties to the ending of an auction.
#[derive(Clone, Copy, Debug, PartialEq, Eq)]
pub struct EndAuction {
    /// The caller, who must be the seller.
    pub authority: Identity,
}

} // verus!
