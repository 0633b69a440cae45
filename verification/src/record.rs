use crate::identity::Identity;
use vstd::prelude::*;

verus! {

/// The record of one auction: its terms, which never change, and the state
/// of the bidding.
#[derive(Clone, Copy, Debug, PartialEq, Eq)]
pub struct Auction {
    /// The seller, who escrowed the asset and alone may end the auction.
    pub authority: Identity,
    /// The time from which no bid is taken and the auction may be ended.
    pub end_time: i64,
    /// The least amount that a bid may offer.
    pub min_bid: u64,
    /// The amount of the leading bid; zero while there is none.
    pub highest_bid: u64,
    /// Who made the leading bid; the null identity while there is none.
    pub highest_bidder: Identity,
    /// Whether the auction still runs. Once false it stays false.
    pub is_active: bool,
    /// The nonce of the record's derived address.
    pub bump: u8,
}

impl Auction {
    /// A leading bid and a leading bidder come together: the record names
    /// nobody exactly as long as no amount has been bid.
    pub open spec fn well_formed(&self) -> bool {
        self.highest_bid == 0 <==> self.highest_bidder.is_null()
    }

    /// Whether the two records are auctions on the same terms.
    pub open spec fn same_terms(&self, other: &Auction) -> bool {
        &&& self.authority == other.authority
        &&& self.end_time == other.end_time
        &&& self.min_bid == other.min_bid
        &&& self.bump == other.bump
    }

    /// Who is owed the asset when the auction ends: the leading bidder, or
    /// the seller where nobody has bid.
    pub open spec fn winner(&self) -> Identity {
        if self.highest_bid == 0 {
            self.authority
        } else {
            self.highest_bidder
        }
    }

    /// What `who` has at stake in the auction: the leading bid if it is
    /// theirs, and nothing otherwise.
    pub open spec fn stake(&self, who: Identity) -> int {
        if self.highest_bid > 0 && self.highest_bidder == who {
            self.highest_bid as int
        } else {
            0
        }
    }
}

} // verus!
