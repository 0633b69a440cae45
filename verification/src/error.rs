use vstd::prelude::*;

verus! {

/// Why an operation on an auction was refused. Every refusal leaves the
/// auction record as it was.
#[derive(Clone, Copy, Debug, PartialEq, Eq, Structural)]
pub enum AuctionError {
    /// A bid came at or after the auction's end time.
    AuctionEnded,
    /// The auction has already been ended.
    AuctionInactive,
    /// A bid did not exceed the highest bid, or was under the minimum bid.
    BidTooLow,
    /// The auction was to be ended before its end time.
    AuctionNotEnded,
    /// The caller is not the seller of the auction.
    Unauthorized,
    /// The host could not move the currency or the asset.
    TransferFailure,
}

impl AuctionError {
    /// The text shown for each kind of refusal.
    pub open spec fn message_text(self) -> Seq<char> {
        match self {
            AuctionError::AuctionEnded => "Auction has ended."@,
            AuctionError::AuctionInactive => "Auction is not active."@,
            AuctionError::BidTooLow => "Bid amount is too low."@,
            AuctionError::AuctionNotEnded => "Auction has not ended yet."@,
            AuctionError::Unauthorized => "Caller is not the seller."@,
            AuctionError::TransferFailure => "Transfer failed."@,
        }
    }

    /// The text to show for this refusal.
    pub fn message(&self) -> (text: &'static str)
        ensures
            text@ == self.message_text(),
    {
        match self {
            AuctionError::AuctionEnded => "Auction has ended.",
            AuctionError::AuctionInactive => "Auction is not active.",
            AuctionError::BidTooLow => "Bid amount is too low.",
            AuctionError::AuctionNotEnded => "Auction has not ended yet.",
            AuctionError::Unauthorized => "Caller is not the seller.",
            AuctionError::TransferFailure => "Transfer failed.",
        }
    }
}

} // verus!
