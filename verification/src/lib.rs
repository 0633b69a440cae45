pub mod accounts;
pub mod bidding;
pub mod creation;
pub mod error;
pub mod history;
pub mod identity;
pub mod instruction;
pub mod laws;
pub mod record;
pub mod settlement;
pub mod transfer;

pub use accounts::{Bid, CreateAuction, EndAuction};
pub use bidding::{bid, bid_transfers};
pub use creation::{create_auction, create_transfer};
pub use error::AuctionError;
pub use identity::Identity;
pub use instruction::{AccountMeta, Instruction};
pub use record::Auction;
pub use settlement::{end_auction, end_transfer};
pub use transfer::{BidTransfers, Deposit, Payment, Release, TransferStatus};
