//! Everything an operation can fail with. Each error is terminal for the
//! current call: the core never retries, and a failed call leaves no
//! observable state change.

use vstd::prelude::*;

verus! {

/// The reason an operation was rejected. Validation and state-precondition
/// errors are raised before any state is touched; `MathOverflow` is raised
/// whenever an addition, subtraction or multiplication would leave the
/// unsigned 64-bit range, and is never silently wrapped.
#[derive(Clone, Copy, Debug, PartialEq, Eq, Structural)]
pub enum SuperpullProgramError {
    /// A math operation would overflow or underflow 64 bits.
    MathOverflow,
    /// Base price must be greater than zero.
    InvalidBasePrice,
    /// Price increment must be greater than zero.
    InvalidPriceIncrement,
    /// Maximum supply must be greater than zero.
    InvalidMaxSupply,
    /// Minimum items must be greater than zero and at most the max supply.
    InvalidMinimumItems,
    /// The backing item set is empty or not well-formed.
    InvalidMerkleTree,
    /// Bid amount differs from the exact clearing price.
    InsufficientBidAmount,
    /// Maximum supply reached.
    MaxSupplyReached,
    /// Bid amount must be greater than zero.
    InvalidBidAmount,
    /// Bidder cannot be the null identity.
    InvalidBidder,
    /// Unauthorized withdrawal attempt.
    UnauthorizedWithdraw,
    /// Auction must be graduated to withdraw funds.
    NotGraduated,
    /// No funds available to withdraw.
    NoFundsToWithdraw,
    /// Invalid authority provided.
    InvalidAuthority,
    /// The deadline does not lie in the future.
    InvalidDeadline,
    /// The auction's deadline has passed and it has not graduated.
    AuctionExpired,
    /// Refunds are only available after the deadline and before graduation.
    InvalidRefundAttempt,
    /// No bid amount to refund.
    NoFundsToRefund,
}

} // verus!
