//! The durable state of one auction.
//!
//! Identities (the authority, the collateral asset, the issuance collection,
//! the backing item set, and the auction record itself) are plain 64-bit
//! account identifiers assigned by the host; `0` is the null identity. The
//! host addresses each record by the composite key (authority, collection),
//! so the record needs no addressing material of its own.

use vstd::prelude::*;

verus! {

/// One auction: curve parameters, escrow accounting, supply counters and the
/// graduation latch.
#[derive(Clone, Copy, Debug, PartialEq, Eq, Structural)]
pub struct AuctionState {
    /// Entity allowed to withdraw proceeds after graduation.
    pub authority: u64,
    /// Backing registry of the items still eligible for issuance.
    pub merkle_tree: u64,
    /// Fungible asset bids must be paid in.
    pub token_mint: u64,
    /// Issuance collection newly minted items belong to.
    pub collection_mint: u64,
    /// Price of the 0th unit; always positive.
    pub base_price: u64,
    /// Linear price step per unit sold; always positive.
    pub price_increment: u64,
    /// Units sold so far; never exceeds `max_supply`.
    pub current_supply: u64,
    /// Hard cap on units.
    pub max_supply: u64,
    /// Sum of all currently escrowed, non-refunded funds.
    pub total_value_locked: u64,
    /// Graduation threshold; `0 < minimum_items <= max_supply`.
    pub minimum_items: u64,
    /// Last moment (epoch seconds) bids are unconditionally accepted.
    pub deadline: i64,
    /// One-way latch; true exactly once `current_supply` reached
    /// `minimum_items`.
    pub is_graduated: bool,
}

/// The lifecycle phase of an auction at a given time. `Graduated` and
/// `Expired` are mutually exclusive: the graduation latch forecloses
/// expiry, and an expired auction can no longer graduate.
#[derive(Clone, Copy, Debug, PartialEq, Eq, Structural)]
pub enum AuctionPhase {
    /// Below the graduation threshold and before the deadline.
    Open,
    /// Threshold reached: withdrawals enabled, refunds disabled, bids
    /// allowed up to the supply cap.
    Graduated,
    /// Deadline passed without graduation: refunds enabled, bids rejected.
    Expired,
}

impl AuctionState {
    /// Every reachable auction record satisfies this: the curve parameters
    /// and the threshold are as creation validated them, the supply respects
    /// the cap, and the graduation latch agrees with the supply counter.
    pub open spec fn well_formed(self) -> bool {
        &&& self.base_price > 0
        &&& self.price_increment > 0
        &&& 0 < self.minimum_items <= self.max_supply
        &&& self.current_supply <= self.max_supply
        &&& (self.is_graduated <==> self.current_supply >= self.minimum_items)
    }

    /// The phase the auction is in at time `now`.
    pub open spec fn phase(self, now: i64) -> AuctionPhase {
        if self.is_graduated {
            AuctionPhase::Graduated
        } else if now > self.deadline {
            AuctionPhase::Expired
        } else {
            AuctionPhase::Open
        }
    }
}

/// The configuration of the auction never changes after creation; only the
/// supply counter, the escrow total and the graduation latch move.
pub open spec fn same_auction_parameters(pre: AuctionState, post: AuctionState) -> bool {
    &&& post.authority == pre.authority
    &&& post.merkle_tree == pre.merkle_tree
    &&& post.token_mint == pre.token_mint
    &&& post.collection_mint == pre.collection_mint
    &&& post.base_price == pre.base_price
    &&& post.price_increment == pre.price_increment
    &&& post.max_supply == pre.max_supply
    &&& post.minimum_items == pre.minimum_items
    &&& post.deadline == pre.deadline
}

/// What one accepted bid of `amount` does to the auction record: the amount
/// is the exact clearing price, one more unit is sold, the amount joins the
/// escrow, and the latch flips if the threshold is now reached.
pub open spec fn successful_bid_transition(
    pre: AuctionState,
    post: AuctionState,
    amount: u64,
) -> bool {
    &&& amount == crate::pricing::price(pre.base_price, pre.price_increment, pre.current_supply)
    &&& post.current_supply == pre.current_supply + 1
    &&& post.total_value_locked == pre.total_value_locked + amount
    &&& post.is_graduated == (pre.is_graduated || pre.current_supply + 1 >= pre.minimum_items)
    &&& same_auction_parameters(pre, post)
}

/// What one full refund of `amount` does to the auction record: only
/// possible before graduation, and it removes exactly the bidder's active
/// contribution from the escrow.
pub open spec fn successful_refund_transition(
    pre: AuctionState,
    post: AuctionState,
    amount: u64,
) -> bool {
    &&& !pre.is_graduated
    &&& amount > 0
    &&& post.total_value_locked == pre.total_value_locked - amount
    &&& post.current_supply == pre.current_supply
    &&& post.is_graduated == pre.is_graduated
    &&& same_auction_parameters(pre, post)
}

/// What one withdrawal does to the auction record: only possible after
/// graduation, and it empties the escrow in one piece.
pub open spec fn successful_withdraw_transition(pre: AuctionState, post: AuctionState) -> bool {
    &&& pre.is_graduated
    &&& pre.total_value_locked > 0
    &&& post == (AuctionState { total_value_locked: 0u64, ..pre })
}

/// Everything one engine operation can do to an auction record: nothing (a
/// rejected call or a pure query), or exactly one of the three state-changing
/// transitions.
pub open spec fn engine_step(pre: AuctionState, post: AuctionState) -> bool {
    ||| post == pre
    ||| exists|amount: u64| successful_bid_transition(pre, post, amount)
    ||| exists|amount: u64| successful_refund_transition(pre, post, amount)
    ||| successful_withdraw_transition(pre, post)
}

} // verus!
