use crate::accounts::{Bid, EndAuction};
use crate::bidding::{bid_moves, bid_outcome};
use crate::error::AuctionError;
use crate::history::{named_run, payments_of, regular_run, released_by, replay, Call};
use crate::identity::Identity;
use crate::record::Auction;
use crate::settlement::{after_end, end_outcome, end_refusal};
use crate::transfer::{net_paid, paid_in, Payment, TransferStatus};
use vstd::prelude::*;

verus! {

/// A bid that does not exceed the leading bid is refused as too low on an
/// auction that runs, whatever the minimum bid is.
pub proof fn lemma_bid_must_exceed_the_lead(
    auction: Auction,
    amount: u64,
    now: i64,
    status: TransferStatus,
)
    requires
        auction.is_active,
        now < auction.end_time,
        amount <= auction.highest_bid,
    ensures
        bid_outcome(auction, amount, now, status) == Err::<(), AuctionError>(
            AuctionError::BidTooLow,
        ),
{
}

/// A bid under the minimum bid is refused as too low on an auction that
/// runs.
pub proof fn lemma_bid_must_reach_the_minimum(
    auction: Auction,
    amount: u64,
    now: i64,
    status: TransferStatus,
)
    requires
        auction.is_active,
        now < auction.end_time,
        amount < auction.min_bid,
    ensures
        bid_outcome(auction, amount, now, status) == Err::<(), AuctionError>(
            AuctionError::BidTooLow,
        ),
{
}

/// On an auction that runs, a bid at or after the end time is refused
/// because the auction has ended.
pub proof fn lemma_late_bid_is_refused(
    auction: Auction,
    amount: u64,
    now: i64,
    status: TransferStatus,
)
    requires
        auction.is_active,
        now >= auction.end_time,
    ensures
        bid_outcome(auction, amount, now, status) == Err::<(), AuctionError>(
            AuctionError::AuctionEnded,
        ),
{
}

/// Once an auction has been ended, every bid is refused because the auction
/// is inactive.
pub proof fn lemma_bid_after_end_is_refused(
    auction: Auction,
    seller: EndAuction,
    ended_at: i64,
    amount: u64,
    now: i64,
    status: TransferStatus,
)
    requires
        end_outcome(auction, seller, ended_at, TransferStatus::Completed) is Ok,
    ensures
        bid_outcome(after_end(auction), amount, now, status) == Err::<(), AuctionError>(
            AuctionError::AuctionInactive,
        ),
{
}

/// Nobody but the seller can end an auction.
pub proof fn lemma_only_the_seller_ends(
    auction: Auction,
    accounts: EndAuction,
    now: i64,
    status: TransferStatus,
)
    requires
        accounts.authority != auction.authority,
    ensures
        end_outcome(auction, accounts, now, status) == Err::<(), AuctionError>(
            AuctionError::Unauthorized,
        ),
{
}

/// The seller cannot end an auction that runs before its end time.
pub proof fn lemma_early_end_is_refused(
    auction: Auction,
    accounts: EndAuction,
    now: i64,
    status: TransferStatus,
)
    requires
        accounts.authority == auction.authority,
        auction.is_active,
        now < auction.end_time,
    ensures
        end_outcome(auction, accounts, now, status) == Err::<(), AuctionError>(
            AuctionError::AuctionNotEnded,
        ),
{
}

/// An auction is ended once. After that every call to end it fails, so that
/// the record stays as it is and nothing more is released; and where it is
/// the seller who calls, the call fails because the auction is inactive.
pub proof fn lemma_end_happens_once(
    auction: Auction,
    first: EndAuction,
    first_at: i64,
    second: EndAuction,
    second_at: i64,
    status: TransferStatus,
)
    requires
        end_outcome(auction, first, first_at, TransferStatus::Completed) is Ok,
    ensures
        end_refusal(after_end(auction), second, second_at) is Some,
        end_outcome(after_end(auction), second, second_at, status) is Err,
        second.authority == auction.authority ==> end_outcome(
            after_end(auction),
            second,
            second_at,
            status,
        ) == Err::<(), AuctionError>(AuctionError::AuctionInactive),
        (Call::End { accounts: second, now: second_at, status }).apply(after_end(auction))
            == after_end(auction),
        (Call::End { accounts: second, now: second_at, status }).released(after_end(auction)) == 0,
{
}

/// No call changes the terms of an auction, and none brings an ended
/// auction back.
pub proof fn lemma_terms_are_kept(start: Auction, calls: Seq<Call>)
    ensures
        replay(start, calls).same_terms(&start),
        !start.is_active ==> replay(start, calls) == start,
        replay(start, calls).is_active ==> start.is_active,
    decreases calls.len(),
{
    if calls.len() > 0 {
        lemma_terms_are_kept(start, calls.drop_last());
    }
}

/// The leading bid never falls: at every point of a run of calls it is at
/// most what it is at the end.
pub proof fn lemma_highest_bid_never_falls(start: Auction, calls: Seq<Call>, k: int)
    requires
        0 <= k <= calls.len(),
    ensures
        replay(start, calls.take(k)).highest_bid <= replay(start, calls).highest_bid,
    decreases calls.len() - k,
{
    if k == calls.len() {
        assert(calls.take(k) =~= calls);
    } else {
        lemma_highest_bid_never_falls(start, calls, k + 1);
        let longer = calls.take(k + 1);
        assert(longer.drop_last() =~= calls.take(k));
        assert(longer.last() == calls[k]);
    }
}

/// Every bid that is taken raises the leading bid, and makes its bidder the
/// leader with the amount of the bid.
pub proof fn lemma_accepted_bid_leads(start: Auction, calls: Seq<Call>, k: int)
    requires
        0 <= k < calls.len(),
        calls[k].is_accepted_bid(replay(start, calls.take(k))),
    ensures
        replay(start, calls.take(k)).highest_bid < replay(start, calls.take(k + 1)).highest_bid,
        replay(start, calls.take(k + 1)).highest_bid == calls[k]->Bid_amount,
        replay(start, calls.take(k + 1)).highest_bidder == calls[k]->Bid_accounts.bidder,
        replay(start, calls.take(k)).highest_bid < replay(start, calls).highest_bid,
{
    let longer = calls.take(k + 1);
    assert(longer.drop_last() =~= calls.take(k));
    assert(longer.last() == calls[k]);
    lemma_highest_bid_never_falls(start, calls, k + 1);
}

/// The leader is whoever made the latest bid that was taken: where the call
/// at `k` is such a bid and none after it is, the record at the end of the
/// run names its bidder and its amount.
pub proof fn lemma_leader_made_the_latest_bid(start: Auction, calls: Seq<Call>, k: int)
    requires
        0 <= k < calls.len(),
        calls[k].is_accepted_bid(replay(start, calls.take(k))),
        forall|j: int|
            k < j < calls.len() ==> !(#[trigger] calls[j]).is_accepted_bid(
                replay(start, calls.take(j)),
            ),
    ensures
        replay(start, calls).highest_bid == calls[k]->Bid_amount,
        replay(start, calls).highest_bidder == calls[k]->Bid_accounts.bidder,
    decreases calls.len(),
{
    let shorter = calls.drop_last();
    if k == calls.len() - 1 {
        assert(calls.take(k) =~= shorter);
    } else {
        assert(shorter.take(k) =~= calls.take(k));
        assert forall|j: int| k < j < shorter.len() implies !(#[trigger] shorter[j]).is_accepted_bid(
            replay(start, shorter.take(j)),
        ) by {
            assert(shorter.take(j) =~= calls.take(j));
            assert(shorter[j] == calls[j]);
        }
        lemma_leader_made_the_latest_bid(start, shorter, k);
        let last = calls.len() - 1;
        assert(calls.take(last) =~= shorter);
        assert(!calls[last].is_accepted_bid(replay(start, calls.take(last))));
    }
}

/// Where no bid of a run is taken, the lead stays as it was.
pub proof fn lemma_lead_stays_without_bids(start: Auction, calls: Seq<Call>)
    requires
        forall|j: int|
            0 <= j < calls.len() ==> !(#[trigger] calls[j]).is_accepted_bid(
                replay(start, calls.take(j)),
            ),
    ensures
        replay(start, calls).highest_bid == start.highest_bid,
        replay(start, calls).highest_bidder == start.highest_bidder,
    decreases calls.len(),
{
    if calls.len() > 0 {
        let shorter = calls.drop_last();
        assert forall|j: int| 0 <= j < shorter.len() implies !(#[trigger] shorter[j]).is_accepted_bid(
            replay(start, shorter.take(j)),
        ) by {
            assert(shorter.take(j) =~= calls.take(j));
            assert(shorter[j] == calls[j]);
        }
        lemma_lead_stays_without_bids(start, shorter);
        let last = calls.len() - 1;
        assert(calls.take(last) =~= shorter);
        assert(!calls[last].is_accepted_bid(replay(start, calls.take(last))));
    }
}

/// A leading bid and a leading bidder come together at every point, as long
/// as every bid that is taken comes from somebody.
pub proof fn lemma_lead_is_well_formed(start: Auction, calls: Seq<Call>)
    requires
        start.well_formed(),
        named_run(start, calls),
    ensures
        replay(start, calls).well_formed(),
    decreases calls.len(),
{
    if calls.len() > 0 {
        lemma_lead_is_well_formed(start, calls.drop_last());
    }
}

/// The vault holds the asset exactly as long as the auction runs: of the one
/// unit that an auction escrows, a run of calls releases none while the
/// auction still runs at its end, and exactly the one when it has ended.
pub proof fn lemma_vault_holds_the_asset_while_active(start: Auction, calls: Seq<Call>)
    requires
        start.is_active,
    ensures
        released_by(start, calls) == if replay(start, calls).is_active {
            0int
        } else {
            1int
        },
    decreases calls.len(),
{
    if calls.len() > 0 {
        lemma_vault_holds_the_asset_while_active(start, calls.drop_last());
    }
}

/// Nothing leaves the vault of an auction that has ended.
pub proof fn lemma_nothing_released_after_end(start: Auction, calls: Seq<Call>)
    requires
        !start.is_active,
    ensures
        released_by(start, calls) == 0,
    decreases calls.len(),
{
    if calls.len() > 0 {
        lemma_nothing_released_after_end(start, calls.drop_last());
        lemma_terms_are_kept(start, calls.drop_last());
    }
}

/// What a party has paid out over two runs of payments is the sum of what
/// it has paid out over each.
pub proof fn lemma_net_paid_adds(first: Seq<Payment>, second: Seq<Payment>, who: Identity)
    ensures
        net_paid(first + second, who) == net_paid(first, who) + net_paid(second, who),
    decreases second.len(),
{
    if second.len() == 0 {
        assert(first + second =~= first);
    } else {
        lemma_net_paid_adds(first, second.drop_last(), who);
        assert((first + second).drop_last() =~= first + second.drop_last());
        assert((first + second).last() == second.last());
    }
}

/// What a party has paid out over the payments of a bid that is taken.
proof fn lemma_net_paid_in_bid(auction: Auction, accounts: Bid, amount: u64, who: Identity)
    ensures
        net_paid(bid_moves(auction, accounts, amount).in_order(), who) == paid_in(
            bid_moves(auction, accounts, amount).payment,
            who,
        ) + match bid_moves(auction, accounts, amount).refund {
            Some(refund) => paid_in(refund, who),
            None => 0,
        },
{
    let moves = bid_moves(auction, accounts, amount);
    let list = moves.in_order();
    match moves.refund {
        Some(refund) => {
            assert(list.drop_last() =~= seq![moves.payment]);
            assert(list.drop_last().drop_last() =~= Seq::<Payment>::empty());
            assert(net_paid(list.drop_last().drop_last(), who) == 0);
            assert(net_paid(list.drop_last(), who) == paid_in(moves.payment, who));
        },
        None => {
            assert(list.drop_last() =~= Seq::<Payment>::empty());
            assert(net_paid(list.drop_last(), who) == 0);
        },
    }
}

/// Every bidder is out of pocket by exactly what it has at stake: over a
/// run of calls in which no bid comes from the seller and every bid names
/// the leading bidder as the one to refund, a party other than the seller
/// has paid, on balance, the leading bid if it leads at the end and nothing
/// if it does not, less what it had at stake at the start; and the seller
/// has been paid, on balance, what the leading bid has grown by.
pub proof fn lemma_payments_match_stakes(start: Auction, calls: Seq<Call>, who: Identity)
    requires
        regular_run(start, calls),
        start.highest_bid > 0 ==> start.highest_bidder != start.authority,
    ensures
        who != start.authority ==> net_paid(payments_of(start, calls), who) == replay(
            start,
            calls,
        ).stake(who) - start.stake(who),
        net_paid(payments_of(start, calls), start.authority) == start.highest_bid - replay(
            start,
            calls,
        ).highest_bid,
        replay(start, calls).highest_bid > 0 ==> replay(start, calls).highest_bidder
            != start.authority,
    decreases calls.len(),
{
    if calls.len() > 0 {
        let shorter = calls.drop_last();
        let before = replay(start, shorter);
        let call = calls.last();
        lemma_payments_match_stakes(start, shorter, who);
        lemma_terms_are_kept(start, shorter);
        lemma_net_paid_adds(payments_of(start, shorter), call.payments(before), who);
        lemma_net_paid_adds(payments_of(start, shorter), call.payments(before), start.authority);
        match call {
            Call::Bid { accounts, amount, now, status } => {
                if call.accepted(before) {
                    lemma_net_paid_in_bid(before, accounts, amount, who);
                    lemma_net_paid_in_bid(before, accounts, amount, start.authority);
                } else {
                    assert(call.payments(before) =~= Seq::<Payment>::empty());
                }
            },
            Call::End { accounts, now, status } => {
                assert(call.payments(before) =~= Seq::<Payment>::empty());
            },
        }
    }
}

/// On an auction that starts without a bid, whoever leads at the end has
/// paid exactly the leading bid, every other bidder has paid nothing on
/// balance, and the seller has been paid exactly the leading bid.
pub proof fn lemma_winner_pays_the_winning_bid(start: Auction, calls: Seq<Call>, who: Identity)
    requires
        start.highest_bid == 0,
        regular_run(start, calls),
    ensures
        who != start.authority ==> net_paid(payments_of(start, calls), who) == replay(
            start,
            calls,
        ).stake(who),
        net_paid(payments_of(start, calls), start.authority) == -replay(start, calls).highest_bid,
{
    lemma_payments_match_stakes(start, calls, who);
}

} // verus!
