use crate::identity::Identity;
use vstd::prelude::*;

verus! {

/// How the host's attempt to carry out the transfers of an operation ended.
/// The host carries them out in order and stops at the first that fails.
#[derive(Clone, Copy, Debug, PartialEq, Eq, Structural)]
pub enum TransferStatus {
    /// Every transfer was carried out.
    Completed,
    /// A transfer failed, and with it the whole operation.
    Failed,
}

/// An amount of currency to move from one party to another.
#[derive(Clone, Copy, Debug, PartialEq, Eq)]
pub struct Payment {
    pub from: Identity,
    pub to: Identity,
    pub amount: u64,
}

/// The currency that an accepted bid moves: the bidder pays the seller, and
/// then the seller pays back the bid that was leading, if there was one.
#[derive(Clone, Copy, Debug, PartialEq, Eq)]
pub struct BidTransfers {
    pub payment: Payment,
    pub refund: Option<Payment>,
}

impl BidTransfers {
    /// The payments in the order in which they are to be made.
    pub open spec fn in_order(&self) -> Seq<Payment> {
        match self.refund {
            Some(refund) => seq![self.payment, refund],
            None => seq![self.payment],
        }
    }
}

/// Units of the asset to move from the seller's account into the vault, on
/// the seller's signature.
#[derive(Clone, Copy, Debug, PartialEq, Eq)]
pub struct Deposit {
    pub source: Identity,
    pub owner: Identity,
    pub units: u64,
}

/// Units of the asset to move out of the vault to `recipient`, on the
/// authority of the auction record itself: `signer_seeds` are the seeds from
/// which the record's address is derived.
#[derive(Clone, Debug, PartialEq, Eq)]
pub struct Release {
    pub recipient: Identity,
    pub units: u64,
    pub signer_seeds: Vec<Vec<u8>>,
}

/// A release with its seeds as sequences of bytes.
pub struct ReleaseView {
    pub recipient: Identity,
    pub units: u64,
    pub signer_seeds: Seq<Seq<u8>>,
}

impl View for Release {
    type V = ReleaseView;

    open spec fn view(&self) -> ReleaseView {
        ReleaseView {
            recipient: self.recipient,
            units: self.units,
            signer_seeds: self.signer_seeds@.map_values(|seed: Vec<u8>| seed@),
        }
    }
}

/// What `who` has paid out over `moves`, less what it has been paid.
pub open spec fn net_paid(moves: Seq<Payment>, who: Identity) -> int
    decreases moves.len(),
{
    if moves.len() == 0 {
        0
    } else {
        net_paid(moves.drop_last(), who) + paid_in(moves.last(), who)
    }
}

/// What `who` pays out in `payment`, less what it is paid.
pub open spec fn paid_in(payment: Payment, who: Identity) -> int {
    (if payment.from == who {
        payment.amount as int
    } else {
        0
    }) - (if payment.to == who {
        payment.amount as int
    } else {
        0
    })
}

} // verus!
