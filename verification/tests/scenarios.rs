use token_auction::{
    bid, bid_transfers, create_auction, create_transfer, end_auction, end_transfer, Auction,
    AuctionError, Bid, CreateAuction, Deposit, EndAuction, Identity, Payment, TransferStatus,
};

const T: i64 = 1_700_000_000;

fn party(n: u8) -> Identity {
    Identity { bytes: [n; 32] }
}

fn seller() -> Identity {
    party(1)
}

fn open_auction(min_bid: u64) -> Auction {
    let accounts =
        CreateAuction { authority: seller(), authority_token_account: party(9), bump: 254 };
    create_auction(&accounts, T + 100, min_bid, TransferStatus::Completed).unwrap()
}

/// Plans a bid, takes every transfer as made, and records the bid.
fn place(auction: &mut Auction, accounts: &Bid, amount: u64, now: i64) -> Vec<Payment> {
    let plan = bid_transfers(auction, accounts, amount, now).unwrap();
    bid(auction, accounts, amount, now, TransferStatus::Completed).unwrap();
    let mut moved = vec![plan.payment];
    moved.extend(plan.refund);
    moved
}

fn net_paid(moved: &[Payment], who: Identity) -> i128 {
    let mut net: i128 = 0;
    for payment in moved {
        if payment.from == who {
            net += payment.amount as i128;
        }
        if payment.to == who {
            net -= payment.amount as i128;
        }
    }
    net
}

#[test]
fn create_gives_a_running_auction_without_a_bid() {
    let accounts =
        CreateAuction { authority: seller(), authority_token_account: party(9), bump: 254 };
    let auction = create_auction(&accounts, T + 100, 10, TransferStatus::Completed).unwrap();
    assert_eq!(
        auction,
        Auction {
            authority: seller(),
            end_time: T + 100,
            min_bid: 10,
            highest_bid: 0,
            highest_bidder: Identity { bytes: [0; 32] },
            is_active: true,
            bump: 254,
        }
    );
}

#[test]
fn create_deposits_one_unit_from_the_seller() {
    let accounts =
        CreateAuction { authority: seller(), authority_token_account: party(9), bump: 254 };
    assert_eq!(
        create_transfer(&accounts),
        Deposit { source: party(9), owner: seller(), units: 1 }
    );
}

#[test]
fn create_without_the_deposit_leaves_no_record() {
    let accounts =
        CreateAuction { authority: seller(), authority_token_account: party(9), bump: 254 };
    assert_eq!(
        create_auction(&accounts, T + 100, 10, TransferStatus::Failed),
        Err(AuctionError::TransferFailure)
    );
}

#[test]
fn scenario_two_bids_and_an_end() {
    let (b1, b2) = (party(2), party(3));
    let mut auction = open_auction(10);
    assert_eq!(auction.highest_bid, 0);

    let first = Bid { bidder: b1, previous_bidder: auction.highest_bidder };
    let mut moved = place(&mut auction, &first, 15, T);
    assert_eq!(moved, vec![Payment { from: b1, to: seller(), amount: 15 }]);
    assert_eq!(auction.highest_bid, 15);
    assert_eq!(auction.highest_bidder, b1);

    let second = Bid { bidder: b2, previous_bidder: b1 };
    let more = place(&mut auction, &second, 20, T + 50);
    assert_eq!(
        more,
        vec![
            Payment { from: b2, to: seller(), amount: 20 },
            Payment { from: seller(), to: b1, amount: 15 },
        ]
    );
    moved.extend(more);
    assert_eq!(auction.highest_bid, 20);
    assert_eq!(auction.highest_bidder, b2);
    assert_eq!(net_paid(&moved, seller()), -20);
    assert_eq!(net_paid(&moved, b1), 0);
    assert_eq!(net_paid(&moved, b2), 20);

    let caller = EndAuction { authority: seller() };
    let release = end_transfer(&auction, &caller, T + 100).unwrap();
    assert_eq!(release.recipient, b2);
    assert_eq!(release.units, 1);
    assert_eq!(end_auction(&mut auction, &caller, T + 100, TransferStatus::Completed), Ok(()));
    assert!(!auction.is_active);
    assert_eq!(auction.highest_bid, 20);
    assert_eq!(auction.highest_bidder, b2);
}

#[test]
fn scenario_bid_under_the_minimum() {
    let mut auction = open_auction(10);
    let before = auction;
    let accounts = Bid { bidder: party(2), previous_bidder: auction.highest_bidder };
    assert_eq!(bid_transfers(&auction, &accounts, 5, T), Err(AuctionError::BidTooLow));
    assert_eq!(
        bid(&mut auction, &accounts, 5, T, TransferStatus::Completed),
        Err(AuctionError::BidTooLow)
    );
    assert_eq!(auction, before);
    assert_eq!(auction.highest_bid, 0);
}

#[test]
fn scenario_end_right_after_create() {
    let mut auction = open_auction(10);
    let before = auction;
    let caller = EndAuction { authority: seller() };
    assert_eq!(end_transfer(&auction, &caller, T), Err(AuctionError::AuctionNotEnded));
    assert_eq!(
        end_auction(&mut auction, &caller, T, TransferStatus::Completed),
        Err(AuctionError::AuctionNotEnded)
    );
    assert_eq!(auction, before);
}

#[test]
fn scenario_end_without_bids_returns_the_asset() {
    let mut auction = open_auction(10);
    let caller = EndAuction { authority: seller() };
    let release = end_transfer(&auction, &caller, T + 100).unwrap();
    assert_eq!(release.recipient, seller());
    assert_ne!(release.recipient, Identity { bytes: [0; 32] });
    assert_eq!(release.units, 1);
    assert_eq!(end_auction(&mut auction, &caller, T + 100, TransferStatus::Completed), Ok(()));
    assert!(!auction.is_active);
}

#[test]
fn bid_must_exceed_the_leading_bid() {
    let mut auction = open_auction(10);
    let b1 = party(2);
    place(&mut auction, &Bid { bidder: b1, previous_bidder: Identity::null() }, 15, T);
    let before = auction;
    let accounts = Bid { bidder: party(3), previous_bidder: b1 };
    for amount in [15, 14, 10] {
        assert_eq!(bid_transfers(&auction, &accounts, amount, T), Err(AuctionError::BidTooLow));
        assert_eq!(
            bid(&mut auction, &accounts, amount, T, TransferStatus::Completed),
            Err(AuctionError::BidTooLow)
        );
        assert_eq!(auction, before);
    }
    assert_eq!(bid(&mut auction, &accounts, 16, T, TransferStatus::Completed), Ok(()));
    assert_eq!(auction.highest_bid, 16);
}

#[test]
fn first_bid_may_equal_the_minimum() {
    let mut auction = open_auction(10);
    let accounts = Bid { bidder: party(2), previous_bidder: auction.highest_bidder };
    assert_eq!(bid(&mut auction, &accounts, 10, T, TransferStatus::Completed), Ok(()));
    assert_eq!(auction.highest_bid, 10);
}

#[test]
fn bid_of_nothing_is_too_low_even_without_a_minimum() {
    let mut auction = open_auction(0);
    let accounts = Bid { bidder: party(2), previous_bidder: auction.highest_bidder };
    assert_eq!(
        bid(&mut auction, &accounts, 0, T, TransferStatus::Completed),
        Err(AuctionError::BidTooLow)
    );
    assert_eq!(bid(&mut auction, &accounts, 1, T, TransferStatus::Completed), Ok(()));
}

#[test]
fn bid_at_or_after_the_end_time_is_refused() {
    let mut auction = open_auction(10);
    let before = auction;
    let accounts = Bid { bidder: party(2), previous_bidder: auction.highest_bidder };
    for now in [T + 100, T + 101, i64::MAX] {
        assert_eq!(bid_transfers(&auction, &accounts, 15, now), Err(AuctionError::AuctionEnded));
        assert_eq!(
            bid(&mut auction, &accounts, 15, now, TransferStatus::Completed),
            Err(AuctionError::AuctionEnded)
        );
        assert_eq!(auction, before);
    }
    assert_eq!(bid(&mut auction, &accounts, 15, T + 99, TransferStatus::Completed), Ok(()));
}

#[test]
fn late_bid_is_ended_before_it_is_too_low() {
    let mut auction = open_auction(10);
    let accounts = Bid { bidder: party(2), previous_bidder: auction.highest_bidder };
    assert_eq!(
        bid(&mut auction, &accounts, 5, T + 100, TransferStatus::Completed),
        Err(AuctionError::AuctionEnded)
    );
}

#[test]
fn bid_after_the_end_is_inactive() {
    let mut auction = open_auction(10);
    let caller = EndAuction { authority: seller() };
    end_auction(&mut auction, &caller, T + 100, TransferStatus::Completed).unwrap();
    let before = auction;
    let accounts = Bid { bidder: party(2), previous_bidder: auction.highest_bidder };
    for now in [T, T + 100, T + 200] {
        assert_eq!(
            bid_transfers(&auction, &accounts, 15, now),
            Err(AuctionError::AuctionInactive)
        );
        assert_eq!(
            bid(&mut auction, &accounts, 15, now, TransferStatus::Completed),
            Err(AuctionError::AuctionInactive)
        );
        assert_eq!(auction, before);
    }
}

#[test]
fn bid_whose_transfers_fail_is_not_recorded() {
    let mut auction = open_auction(10);
    let before = auction;
    let accounts = Bid { bidder: party(2), previous_bidder: auction.highest_bidder };
    assert_eq!(
        bid(&mut auction, &accounts, 15, T, TransferStatus::Failed),
        Err(AuctionError::TransferFailure)
    );
    assert_eq!(auction, before);
}

#[test]
fn refused_bid_is_reported_before_its_transfers() {
    let mut auction = open_auction(10);
    let accounts = Bid { bidder: party(2), previous_bidder: auction.highest_bidder };
    assert_eq!(
        bid(&mut auction, &accounts, 5, T, TransferStatus::Failed),
        Err(AuctionError::BidTooLow)
    );
}

#[test]
fn first_bid_has_no_refund() {
    let auction = open_auction(10);
    let accounts = Bid { bidder: party(2), previous_bidder: party(7) };
    let plan = bid_transfers(&auction, &accounts, 15, T).unwrap();
    assert_eq!(plan.payment, Payment { from: party(2), to: seller(), amount: 15 });
    assert_eq!(plan.refund, None);
}

#[test]
fn refund_is_the_whole_leading_bid_to_the_named_party() {
    let mut auction = open_auction(10);
    place(&mut auction, &Bid { bidder: party(2), previous_bidder: Identity::null() }, 15, T);
    let accounts = Bid { bidder: party(3), previous_bidder: party(7) };
    let plan = bid_transfers(&auction, &accounts, u64::MAX, T).unwrap();
    assert_eq!(plan.payment, Payment { from: party(3), to: seller(), amount: u64::MAX });
    assert_eq!(plan.refund, Some(Payment { from: seller(), to: party(7), amount: 15 }));
}

#[test]
fn bids_keep_the_terms() {
    let mut auction = open_auction(10);
    place(&mut auction, &Bid { bidder: party(2), previous_bidder: Identity::null() }, 15, T);
    assert_eq!(auction.authority, seller());
    assert_eq!(auction.end_time, T + 100);
    assert_eq!(auction.min_bid, 10);
    assert_eq!(auction.bump, 254);
    assert!(auction.is_active);
}

#[test]
fn payments_of_a_longer_run_balance() {
    let (b1, b2, b3) = (party(2), party(3), party(4));
    let mut auction = open_auction(10);
    let mut moved = Vec::new();
    let mut lead = 0;
    for (bidder, amount) in [(b1, 15), (b2, 20), (b1, 25), (b3, 40), (b2, 41)] {
        let accounts = Bid { bidder, previous_bidder: auction.highest_bidder };
        moved.extend(place(&mut auction, &accounts, amount, T));
        assert!(auction.highest_bid > lead);
        lead = auction.highest_bid;
        assert_eq!(auction.highest_bidder, bidder);
    }
    assert_eq!(auction.highest_bid, 41);
    assert_eq!(net_paid(&moved, b1), 0);
    assert_eq!(net_paid(&moved, b2), 41);
    assert_eq!(net_paid(&moved, b3), 0);
    assert_eq!(net_paid(&moved, seller()), -41);
}

#[test]
fn end_by_a_stranger_is_unauthorized() {
    let mut auction = open_auction(10);
    let before = auction;
    let caller = EndAuction { authority: party(2) };
    for now in [T, T + 100, T + 200] {
        assert_eq!(end_transfer(&auction, &caller, now), Err(AuctionError::Unauthorized));
        assert_eq!(
            end_auction(&mut auction, &caller, now, TransferStatus::Completed),
            Err(AuctionError::Unauthorized)
        );
        assert_eq!(auction, before);
    }
}

#[test]
fn end_by_the_leading_bidder_is_unauthorized() {
    let mut auction = open_auction(10);
    let b1 = party(2);
    place(&mut auction, &Bid { bidder: b1, previous_bidder: Identity::null() }, 15, T);
    let caller = EndAuction { authority: b1 };
    assert_eq!(
        end_auction(&mut auction, &caller, T + 100, TransferStatus::Completed),
        Err(AuctionError::Unauthorized)
    );
    assert!(auction.is_active);
}

#[test]
fn end_before_the_end_time_is_refused() {
    let mut auction = open_auction(10);
    let caller = EndAuction { authority: seller() };
    assert_eq!(
        end_auction(&mut auction, &caller, T + 99, TransferStatus::Completed),
        Err(AuctionError::AuctionNotEnded)
    );
    assert!(auction.is_active);
    assert_eq!(end_auction(&mut auction, &caller, T + 100, TransferStatus::Completed), Ok(()));
}

#[test]
fn second_end_fails_and_releases_nothing() {
    let mut auction = open_auction(10);
    let caller = EndAuction { authority: seller() };
    end_auction(&mut auction, &caller, T + 100, TransferStatus::Completed).unwrap();
    let before = auction;
    for now in [T, T + 100, T + 500] {
        assert_eq!(end_transfer(&auction, &caller, now), Err(AuctionError::AuctionInactive));
        assert_eq!(
            end_auction(&mut auction, &caller, now, TransferStatus::Completed),
            Err(AuctionError::AuctionInactive)
        );
        assert_eq!(auction, before);
    }
    let stranger = EndAuction { authority: party(2) };
    assert_eq!(end_transfer(&auction, &stranger, T + 500), Err(AuctionError::Unauthorized));
    assert_eq!(auction, before);
}

#[test]
fn end_whose_release_fails_keeps_the_auction_running() {
    let mut auction = open_auction(10);
    let before = auction;
    let caller = EndAuction { authority: seller() };
    assert_eq!(
        end_auction(&mut auction, &caller, T + 100, TransferStatus::Failed),
        Err(AuctionError::TransferFailure)
    );
    assert_eq!(auction, before);
    assert_eq!(end_auction(&mut auction, &caller, T + 100, TransferStatus::Completed), Ok(()));
}

#[test]
fn release_is_signed_with_the_seeds_of_the_record() {
    let auction = open_auction(10);
    let caller = EndAuction { authority: seller() };
    let release = end_transfer(&auction, &caller, T + 100).unwrap();
    assert_eq!(release.signer_seeds, vec![b"auction".to_vec(), vec![1u8; 32], vec![254u8]]);
}

#[test]
fn messages_name_the_refusal() {
    assert_eq!(AuctionError::AuctionEnded.message(), "Auction has ended.");
    assert_eq!(AuctionError::AuctionInactive.message(), "Auction is not active.");
    assert_eq!(AuctionError::BidTooLow.message(), "Bid amount is too low.");
    assert_eq!(AuctionError::AuctionNotEnded.message(), "Auction has not ended yet.");
    assert_eq!(AuctionError::Unauthorized.message(), "Caller is not the seller.");
    assert_eq!(AuctionError::TransferFailure.message(), "Transfer failed.");
}
