use crate::accounts::EndAuction;
use crate::error::AuctionError;
use crate::identity::Identity;
use crate::record::Auction;
use crate::transfer::{Release, ReleaseView, TransferStatus};
use vstd::prelude::*;

verus! {

/// The label under which the address of an auction record is derived: the
/// bytes of the word "auction".
pub open spec fn auction_label() -> Seq<u8> {
    seq![97u8, 117u8, 99u8, 116u8, 105u8, 111u8, 110u8]
}

/// The seeds of the record's derived address: the label, the seller's
/// address and the record's nonce.
pub open spec fn authority_seeds(auction: Auction) -> Seq<Seq<u8>> {
    seq![auction_label(), auction.authority@, seq![auction.bump]]
}

/// Why the ending of the auction at time `now` is refused, if it is. The
/// checks are made in this order, and the first that fails gives the error.
pub open spec fn end_refusal(auction: Auction, accounts: EndAuction, now: i64) -> Option<
    AuctionError,
> {
    if accounts.authority != auction.authority {
        Some(AuctionError::Unauthorized)
    } else if !auction.is_active {
        Some(AuctionError::AuctionInactive)
    } else if now < auction.end_time {
        Some(AuctionError::AuctionNotEnded)
    } else {
        None
    }
}

/// What leaves the vault when the auction ends: the one unit it holds, to
/// the winner.
pub open spec fn end_release(auction: Auction) -> ReleaseView {
    ReleaseView {
        recipient: auction.winner(),
        units: 1,
        signer_seeds: authority_seeds(auction),
    }
}

/// The record once the auction has been ended.
pub open spec fn after_end(auction: Auction) -> Auction {
    Auction { is_active: false, ..auction }
}

/// How the ending of an auction ends: refused by a check, failed in its
/// transfer, or done.
pub open spec fn end_outcome(
    auction: Auction,
    accounts: EndAuction,
    now: i64,
    status: TransferStatus,
) -> Result<(), AuctionError> {
    match end_refusal(auction, accounts, now) {
        Some(refusal) => Err(refusal),
        None => match status {
            TransferStatus::Failed => Err(AuctionError::TransferFailure),
            TransferStatus::Completed => Ok(()),
        },
    }
}

fn check_end(auction: &Auction, accounts: &EndAuction, now: i64) -> (refusal: Option<AuctionError>)
    ensures
        refusal == end_refusal(*auction, *accounts, now),
{
    if !(accounts.authority == auction.authority) {
        return Some(AuctionError::Unauthorized);
    }
    if !auction.is_active {
        return Some(AuctionError::AuctionInactive);
    }
    if now < auction.end_time {
        return Some(AuctionError::AuctionNotEnded);
    }
    None
}

fn identity_bytes(id: &Identity) -> (bytes: Vec<u8>)
    ensures
        bytes@ == id@,
{
    let mut bytes: Vec<u8> = Vec::new();
    let mut i: usize = 0;
    while i < 32
        invariant
            i <= 32,
            bytes@.len() == i,
            forall|j: int| 0 <= j < i ==> bytes@[j] == id.bytes[j],
        decreases 32 - i,
    {
        bytes.push(id.bytes[i]);
        i = i + 1;
    }
    assert(bytes@ =~= id@);
    bytes
}

fn signer_seeds(auction: &Auction) -> (seeds: Vec<Vec<u8>>)
    ensures
        seeds@.map_values(|seed: Vec<u8>| seed@) == authority_seeds(*auction),
{
    let mut label: Vec<u8> = Vec::new();
    label.push(97u8);
    label.push(117u8);
    label.push(99u8);
    label.push(116u8);
    label.push(105u8);
    label.push(111u8);
    label.push(110u8);
    assert(label@ =~= auction_label());
    let seller = identity_bytes(&auction.authority);
    let mut nonce: Vec<u8> = Vec::new();
    nonce.push(auction.bump);
    assert(nonce@ =~= seq![auction.bump]);
    let mut seeds: Vec<Vec<u8>> = Vec::new();
    seeds.push(label);
    seeds.push(seller);
    seeds.push(nonce);
    assert(seeds@.map_values(|seed: Vec<u8>| seed@) =~= authority_seeds(*auction));
    seeds
}

/// Checks the ending of the auction at time `now`, and says what the host is
/// to release from the vault: its one unit, to the leading bidder, or back
/// to the seller where nobody has bid. Nothing is to be released where the
/// ending is refused.
pub fn end_transfer(auction: &Auction, accounts: &EndAuction, now: i64) -> (plan: Result<
    Release,
    AuctionError,
>)
    ensures
        match end_refusal(*auction, *accounts, now) {
            Some(refusal) => plan == Err::<Release, AuctionError>(refusal),
            None => plan matches Ok(release) && release@ == end_release(*auction),
        },
{
    if let Some(refusal) = check_end(auction, accounts, now) {
        return Err(refusal);
    }
    let recipient = if auction.highest_bid == 0 {
        auction.authority
    } else {
        auction.highest_bidder
    };
    Ok(Release { recipient, units: 1, signer_seeds: signer_seeds(auction) })
}

/// Ends the auction at time `now`, given how the host's attempt at the
/// release of `end_transfer` ended. The auction is marked as ended only when
/// the ending passes every check and the release was completed. In every
/// other case the record stays as it was.
pub fn end_auction(
    auction: &mut Auction,
    accounts: &EndAuction,
    now: i64,
    status: TransferStatus,
) -> (outcome: Result<(), AuctionError>)
    ensures
        outcome == end_outcome(*old(auction), *accounts, now, status),
        outcome is Ok ==> *final(auction) == after_end(*old(auction)),
        outcome is Err ==> *final(auction) == *old(auction),
        old(auction).well_formed() ==> final(auction).well_formed(),
{
    if let Some(refusal) = check_end(auction, accounts, now) {
        return Err(refusal);
    }
    match status {
        TransferStatus::Failed => Err(AuctionError::TransferFailure),
        TransferStatus::Completed => {
            auction.is_active = false;
            Ok(())
        },
    }
}

} // verus!
