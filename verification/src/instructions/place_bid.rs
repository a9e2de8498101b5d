//! Bid admission: a payment of exactly the current clearing price buys the
//! next unit, joins the escrow, and may flip the graduation latch.

use vstd::prelude::*;

use crate::actions::{BidSettlement, CustodyTransfer, IssueOne};
use crate::pricing;
use crate::state::auction::{engine_step, successful_bid_transition, AuctionState};
use crate::state::bid::BidState;
use crate::utils::errors::SuperpullProgramError;
use crate::utils::events::{AuctionEvent, AuctionGraduated, BidPlaced, EventSink};

verus! {

/// Why a bid of `amount` by `bidder` is rejected against the given records
/// at time `now`; `None` exactly when it must be accepted. The checks are
/// made in this order and the first failure wins. A deadline in the past
/// rejects the bid only while the auction has not graduated: graduation
/// removes the deadline constraint.
pub open spec fn bid_error(
    a: AuctionState,
    b: BidState,
    bidder: u64,
    amount: u64,
    now: i64,
) -> Option<SuperpullProgramError> {
    if amount == 0 {
        Some(SuperpullProgramError::InvalidBidAmount)
    } else if bidder == 0 {
        Some(SuperpullProgramError::InvalidBidder)
    } else if !(now <= a.deadline || a.current_supply >= a.minimum_items) {
        Some(SuperpullProgramError::AuctionExpired)
    } else if a.current_supply >= a.max_supply {
        Some(SuperpullProgramError::MaxSupplyReached)
    } else if pricing::price(a.base_price, a.price_increment, a.current_supply) > u64::MAX {
        Some(SuperpullProgramError::MathOverflow)
    } else if amount != pricing::price(a.base_price, a.price_increment, a.current_supply) {
        Some(SuperpullProgramError::InsufficientBidAmount)
    } else if a.total_value_locked + amount > u64::MAX {
        Some(SuperpullProgramError::MathOverflow)
    } else if b.amount + amount > u64::MAX {
        Some(SuperpullProgramError::MathOverflow)
    } else if b.units_won + 1 > u64::MAX {
        Some(SuperpullProgramError::MathOverflow)
    } else {
        None
    }
}

/// Whether this bid is the one that flips the graduation latch.
pub open spec fn bid_graduates(a: AuctionState) -> bool {
    !a.is_graduated && a.current_supply + 1 >= a.minimum_items
}

/// The auction record after an accepted bid of `amount`.
pub open spec fn auction_after_bid(a: AuctionState, amount: u64) -> AuctionState {
    AuctionState {
        current_supply: (a.current_supply + 1) as u64,
        total_value_locked: (a.total_value_locked + amount) as u64,
        is_graduated: a.is_graduated || a.current_supply + 1 >= a.minimum_items,
        ..a
    }
}

/// The bid record after an accepted bid of `amount`.
pub open spec fn bid_after_bid(b: BidState, amount: u64) -> BidState {
    BidState { amount: (b.amount + amount) as u64, units_won: (b.units_won + 1) as u64, ..b }
}

/// The event stream after an accepted bid: `AuctionGraduated` first if this
/// bid reached the threshold, then `BidPlaced`, both carrying the updated
/// counters.
pub open spec fn events_after_bid(
    log: Seq<AuctionEvent>,
    auction_key: u64,
    a: AuctionState,
    bidder: u64,
    amount: u64,
) -> Seq<AuctionEvent> {
    let post = auction_after_bid(a, amount);
    let with_graduation = if bid_graduates(a) {
        log.push(
            AuctionEvent::Graduated(
                AuctionGraduated {
                    auction: auction_key,
                    total_items: post.current_supply,
                    total_value_locked: post.total_value_locked,
                },
            ),
        )
    } else {
        log
    };
    with_graduation.push(
        AuctionEvent::Bid(
            BidPlaced { auction: auction_key, bidder, amount, new_supply: post.current_supply },
        ),
    )
}

/// Admit or reject one bid. On success the payment is exactly the clearing
/// price at the pre-bid supply, the counters and the bidder's record are
/// advanced, graduation is detected, the events are emitted in order, and
/// the host is told which custody debit and which issuance it owes. On
/// failure nothing changes.
pub fn place_bid_handler(
    auction_key: u64,
    auction: &mut AuctionState,
    bid: &mut BidState,
    bidder: u64,
    amount: u64,
    now: i64,
    sink: &mut EventSink,
) -> (result: Result<BidSettlement, SuperpullProgramError>)
    requires
        old(auction).well_formed(),
        old(bid).keyed_by(auction_key, bidder),
    ensures
        final(auction).well_formed(),
        final(bid).keyed_by(auction_key, bidder),
        engine_step(*old(auction), *final(auction)),
        old(auction).is_graduated ==> final(auction).is_graduated,
        result is Ok <==> bid_error(*old(auction), *old(bid), bidder, amount, now) is None,
        (result matches Err(e) ==> {
            &&& bid_error(*old(auction), *old(bid), bidder, amount, now) == Some(e)
            &&& *final(auction) == *old(auction)
            &&& *final(bid) == *old(bid)
            &&& final(sink)@ == old(sink)@
        }),
        (result matches Ok(settlement) ==> {
            &&& *final(auction) == auction_after_bid(*old(auction), amount)
            &&& *final(bid) == bid_after_bid(*old(bid), amount)
            &&& successful_bid_transition(*old(auction), *final(auction), amount)
            &&& final(sink)@ == events_after_bid(
                old(sink)@,
                auction_key,
                *old(auction),
                bidder,
                amount,
            )
            &&& settlement == (BidSettlement {
                transfer: CustodyTransfer {
                    asset: old(auction).token_mint,
                    from: bidder,
                    to: auction_key,
                    amount,
                },
                issue: IssueOne {
                    source_set: old(auction).merkle_tree,
                    collection: old(auction).collection_mint,
                    owner: bidder,
                },
            })
        }),
{
    if amount == 0 {
        return Err(SuperpullProgramError::InvalidBidAmount);
    }
    if bidder == 0 {
        return Err(SuperpullProgramError::InvalidBidder);
    }
    if !(now <= auction.deadline || auction.current_supply >= auction.minimum_items) {
        return Err(SuperpullProgramError::AuctionExpired);
    }
    if auction.current_supply >= auction.max_supply {
        return Err(SuperpullProgramError::MaxSupplyReached);
    }
    let current_price = match pricing::checked_price(
        auction.base_price,
        auction.price_increment,
        auction.current_supply,
    ) {
        Some(p) => p,
        None => {
            return Err(SuperpullProgramError::MathOverflow);
        },
    };
    if amount != current_price {
        return Err(SuperpullProgramError::InsufficientBidAmount);
    }
    // Check every addition before committing anything, so that a rejected
    // call leaves no partial effect.
    let new_total_value_locked = match auction.total_value_locked.checked_add(amount) {
        Some(v) => v,
        None => {
            return Err(SuperpullProgramError::MathOverflow);
        },
    };
    let new_bid_amount = match bid.amount.checked_add(amount) {
        Some(v) => v,
        None => {
            return Err(SuperpullProgramError::MathOverflow);
        },
    };
    let new_units_won = match bid.units_won.checked_add(1) {
        Some(v) => v,
        None => {
            return Err(SuperpullProgramError::MathOverflow);
        },
    };
    auction.current_supply = auction.current_supply + 1;
    auction.total_value_locked = new_total_value_locked;
    bid.amount = new_bid_amount;
    bid.units_won = new_units_won;
    if !auction.is_graduated && auction.current_supply >= auction.minimum_items {
        auction.is_graduated = true;
        sink.emit(
            AuctionEvent::Graduated(
                AuctionGraduated {
                    auction: auction_key,
                    total_items: auction.current_supply,
                    total_value_locked: auction.total_value_locked,
                },
            ),
        );
    }
    sink.emit(
        AuctionEvent::Bid(
            BidPlaced { auction: auction_key, bidder, amount, new_supply: auction.current_supply },
        ),
    );
    proof {
        // Witness for the bid branch of `engine_step`.
        assert(successful_bid_transition(*old(auction), *auction, amount));
    }
    Ok(
        BidSettlement {
            transfer: CustodyTransfer {
                asset: auction.token_mint,
                from: bidder,
                to: auction_key,
                amount,
            },
            issue: IssueOne {
                source_set: auction.merkle_tree,
                collection: auction.collection_mint,
                owner: bidder,
            },
        },
    )
}

} // verus!
