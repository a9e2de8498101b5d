//! Durable records: one `AuctionState` per auction and one `BidState` per
//! (auction, bidder) pair.

pub mod auction;
pub mod bid;
