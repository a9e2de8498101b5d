//! Per-bidder durable state, keyed by (auction, bidder).

use vstd::prelude::*;

verus! {

/// Cumulative contribution of one bidder to one auction. Created lazily on
/// the first bid; a refund zeroes `amount` but the record lives on as audit
/// history (`units_won` is never clawed back).
#[derive(Clone, Copy, Debug, PartialEq, Eq, Structural)]
pub struct BidState {
    /// Back-reference to the auction record; never an ownership edge.
    pub auction: u64,
    /// The paying party.
    pub bidder: u64,
    /// Cumulative active (non-refunded) contribution. Only increased by
    /// bids; only decreased, to exactly 0, by a full refund.
    pub amount: u64,
    /// Units attributed to this bidder.
    pub units_won: u64,
}

impl BidState {
    /// A fresh record for a bidder's first bid: nothing paid, nothing won.
    pub fn new(auction: u64, bidder: u64) -> (r: BidState)
        ensures
            r == (BidState { auction, bidder, amount: 0u64, units_won: 0u64 }),
    {
        BidState { auction, bidder, amount: 0, units_won: 0 }
    }

    /// The record belongs to the given (auction, bidder) pair.
    pub open spec fn keyed_by(self, auction: u64, bidder: u64) -> bool {
        self.auction == auction && self.bidder == bidder
    }
}

} // verus!
