//! Refund: after the deadline, and only if the auction never graduated, a
//! bidder reclaims the whole of their escrowed contribution.

use vstd::prelude::*;

use crate::actions::CustodyTransfer;
use crate::state::auction::{engine_step, successful_refund_transition, AuctionState};
use crate::state::bid::BidState;
use crate::utils::errors::SuperpullProgramError;
use crate::utils::events::{AuctionEvent, BidRefunded, EventSink};

verus! {

/// Why a refund against the given records is rejected at time `now`; `None`
/// exactly when it must be paid. Graduation forecloses refunds regardless of
/// the time; a recorded contribution larger than the escrow total would be a
/// bookkeeping defect and is reported as an arithmetic fault rather than
/// silently underflowed.
pub open spec fn refund_error(
    a: AuctionState,
    b: BidState,
    now: i64,
) -> Option<SuperpullProgramError> {
    if !(now > a.deadline && !a.is_graduated) {
        Some(SuperpullProgramError::InvalidRefundAttempt)
    } else if b.amount == 0 {
        Some(SuperpullProgramError::NoFundsToRefund)
    } else if a.total_value_locked < b.amount {
        Some(SuperpullProgramError::MathOverflow)
    } else {
        None
    }
}

/// The auction record after a refund of `amount`.
pub open spec fn auction_after_refund(a: AuctionState, amount: u64) -> AuctionState {
    AuctionState { total_value_locked: (a.total_value_locked - amount) as u64, ..a }
}

/// The bid record after a refund: the contribution is zeroed in full, the
/// units already won stay (issued items are not clawed back).
pub open spec fn bid_after_refund(b: BidState) -> BidState {
    BidState { amount: 0u64, ..b }
}

/// Pay back one bidder's whole contribution, or reject with a specific
/// error and no state changed. On success the escrow total drops by exactly
/// the contribution, the bid record is zeroed, `BidRefunded` is emitted, and
/// the host owes the bidder the returned custody transfer.
pub fn refund_handler(
    auction_key: u64,
    auction: &mut AuctionState,
    bid: &mut BidState,
    now: i64,
    sink: &mut EventSink,
) -> (result: Result<CustodyTransfer, SuperpullProgramError>)
    requires
        old(auction).well_formed(),
        old(bid).auction == auction_key,
    ensures
        final(auction).well_formed(),
        final(bid).auction == auction_key,
        final(bid).bidder == old(bid).bidder,
        engine_step(*old(auction), *final(auction)),
        old(auction).is_graduated ==> final(auction).is_graduated,
        result is Ok <==> refund_error(*old(auction), *old(bid), now) is None,
        (result matches Err(e) ==> {
            &&& refund_error(*old(auction), *old(bid), now) == Some(e)
            &&& *final(auction) == *old(auction)
            &&& *final(bid) == *old(bid)
            &&& final(sink)@ == old(sink)@
        }),
        (result matches Ok(transfer) ==> {
            &&& *final(auction) == auction_after_refund(*old(auction), old(bid).amount)
            &&& *final(bid) == bid_after_refund(*old(bid))
            &&& successful_refund_transition(*old(auction), *final(auction), old(bid).amount)
            &&& final(sink)@ == old(sink)@.push(
                AuctionEvent::Refunded(
                    BidRefunded {
                        auction: auction_key,
                        bidder: old(bid).bidder,
                        amount: old(bid).amount,
                    },
                ),
            )
            &&& transfer == (CustodyTransfer {
                asset: old(auction).token_mint,
                from: auction_key,
                to: old(bid).bidder,
                amount: old(bid).amount,
            })
        }),
{
    if !(now > auction.deadline && !auction.is_graduated) {
        return Err(SuperpullProgramError::InvalidRefundAttempt);
    }
    if bid.amount == 0 {
        return Err(SuperpullProgramError::NoFundsToRefund);
    }
    let new_total_value_locked = match auction.total_value_locked.checked_sub(bid.amount) {
        Some(v) => v,
        None => {
            return Err(SuperpullProgramError::MathOverflow);
        },
    };
    let refunded_amount = bid.amount;
    auction.total_value_locked = new_total_value_locked;
    bid.amount = 0;
    sink.emit(
        AuctionEvent::Refunded(
            BidRefunded { auction: auction_key, bidder: bid.bidder, amount: refunded_amount },
        ),
    );
    proof {
        // Witness for the refund branch of `engine_step`.
        assert(successful_refund_transition(*old(auction), *auction, refunded_amount));
    }
    Ok(
        CustodyTransfer {
            asset: auction.token_mint,
            from: auction_key,
            to: bid.bidder,
            amount: refunded_amount,
        },
    )
}

} // verus!
