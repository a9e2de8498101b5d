//! The engine-wide guarantees, each proved from the transition relations and
//! outcome functions that the operations' own contracts are stated over.

use vstd::prelude::*;

use crate::instructions::place_bid::bid_error;
use crate::instructions::refund::refund_error;
use crate::instructions::withdraw::{auction_after_withdraw, withdraw_error};
use crate::pricing::price;
use crate::state::auction::{engine_step, successful_bid_transition, AuctionPhase, AuctionState};
use crate::state::bid::BidState;
use crate::utils::errors::SuperpullProgramError;

verus! {

/// The sum of a sequence of bid amounts, as an unbounded integer.
pub open spec fn sum(amounts: Seq<u64>) -> int
    decreases amounts.len(),
{
    if amounts.len() == 0 {
        0
    } else {
        sum(amounts.drop_last()) + amounts.last()
    }
}

/// Escrow accounting. Along any sequence of accepted bids, the escrow total
/// grows by exactly the sum of the amounts paid and the supply counter by
/// exactly the number of bids: value is neither created nor lost by bidding.
pub proof fn lemma_escrow_accounting(trace: Seq<AuctionState>, amounts: Seq<u64>)
    requires
        trace.len() == amounts.len() + 1,
        forall|k: int|
            0 <= k < amounts.len() ==> successful_bid_transition(
                trace[k],
                trace[k + 1],
                amounts[k],
            ),
    ensures
        trace.last().total_value_locked == trace[0].total_value_locked + sum(amounts),
        trace.last().current_supply == trace[0].current_supply + amounts.len(),
    decreases amounts.len(),
{
    if amounts.len() > 0 {
        lemma_escrow_accounting(trace.drop_last(), amounts.drop_last());
        assert(successful_bid_transition(
            trace[trace.len() - 2],
            trace[trace.len() - 1],
            amounts[amounts.len() - 1],
        ));
    }
}

/// Both counters are monotone along any sequence of accepted bids: neither
/// the escrow total nor the supply ever moves backwards while bidding.
pub proof fn lemma_bid_counters_monotonic(
    trace: Seq<AuctionState>,
    amounts: Seq<u64>,
    i: int,
    j: int,
)
    requires
        trace.len() == amounts.len() + 1,
        forall|k: int|
            0 <= k < amounts.len() ==> successful_bid_transition(
                trace[k],
                trace[k + 1],
                amounts[k],
            ),
        0 <= i <= j < trace.len(),
    ensures
        trace[i].total_value_locked <= trace[j].total_value_locked,
        trace[i].current_supply <= trace[j].current_supply,
    decreases j - i,
{
    if i < j {
        lemma_bid_counters_monotonic(trace, amounts, i, j - 1);
        assert(successful_bid_transition(trace[j - 1], trace[j], amounts[j - 1]));
    }
}

/// No single engine operation clears the graduation latch.
pub proof fn lemma_engine_step_preserves_graduation(pre: AuctionState, post: AuctionState)
    requires
        engine_step(pre, post),
        pre.is_graduated,
    ensures
        post.is_graduated,
{
}

/// The graduation latch is one-way: once an auction has graduated, it stays
/// graduated under every sequence of engine operations.
pub proof fn lemma_graduation_is_permanent(trace: Seq<AuctionState>, i: int, j: int)
    requires
        forall|k: int| 0 <= k < trace.len() - 1 ==> #[trigger] engine_step(trace[k], trace[k + 1]),
        0 <= i <= j < trace.len(),
        trace[i].is_graduated,
    ensures
        trace[j].is_graduated,
    decreases j - i,
{
    if i < j {
        lemma_graduation_is_permanent(trace, i, j - 1);
        assert(engine_step(trace[j - 1], trace[j - 1 + 1]));
        lemma_engine_step_preserves_graduation(trace[j - 1], trace[j]);
    }
}

/// A refund is owed only to a bidder with an active contribution, and only
/// after the deadline on an auction that never graduated.
pub proof fn lemma_refund_only_when_expired(a: AuctionState, b: BidState, now: i64)
    requires
        refund_error(a, b, now) is None,
    ensures
        now > a.deadline,
        !a.is_graduated,
        b.amount > 0,
{
}

/// Graduating forecloses refunds permanently: after the latch has flipped,
/// every refund attempt, by any bidder and at any time, is rejected with
/// `InvalidRefundAttempt`, under every sequence of engine operations.
pub proof fn lemma_graduation_forecloses_refund(
    trace: Seq<AuctionState>,
    i: int,
    j: int,
    b: BidState,
    now: i64,
)
    requires
        forall|k: int| 0 <= k < trace.len() - 1 ==> #[trigger] engine_step(trace[k], trace[k + 1]),
        0 <= i <= j < trace.len(),
        trace[i].is_graduated,
    ensures
        refund_error(trace[j], b, now) == Some(SuperpullProgramError::InvalidRefundAttempt),
{
    lemma_graduation_is_permanent(trace, i, j);
}

/// The lifecycle in one statement: an auction is in exactly one phase at any
/// time, bids are never admitted in `Expired`, refunds are owed only in
/// `Expired`, and withdrawals only in `Graduated` — so the two terminal
/// phases exclude each other's operations.
pub proof fn lemma_phase_gates_operations(
    a: AuctionState,
    b: BidState,
    bidder: u64,
    amount: u64,
    now: i64,
    caller: u64,
)
    requires
        a.well_formed(),
    ensures
        bid_error(a, b, bidder, amount, now) is None ==> a.phase(now) != AuctionPhase::Expired,
        refund_error(a, b, now) is None ==> a.phase(now) == AuctionPhase::Expired,
        withdraw_error(a, caller) is None ==> a.phase(now) == AuctionPhase::Graduated,
{
}

/// A bid whose payment differs from the exact clearing price is always
/// rejected, above and below alike.
pub proof fn lemma_wrong_amount_always_rejected(
    a: AuctionState,
    b: BidState,
    bidder: u64,
    amount: u64,
    now: i64,
)
    requires
        amount != price(a.base_price, a.price_increment, a.current_supply),
    ensures
        bid_error(a, b, bidder, amount, now) is Some,
{
}

/// Conversely, an accepted bid paid the exact clearing price at the supply
/// it was admitted against.
pub proof fn lemma_accepted_bid_pays_exact_price(
    a: AuctionState,
    b: BidState,
    bidder: u64,
    amount: u64,
    now: i64,
)
    requires
        bid_error(a, b, bidder, amount, now) is None,
    ensures
        amount == price(a.base_price, a.price_increment, a.current_supply),
{
}

/// A withdrawal is owed only to the authority, and only after graduation.
pub proof fn lemma_withdraw_requires_authority(a: AuctionState, caller: u64)
    requires
        withdraw_error(a, caller) is None,
    ensures
        caller == a.authority,
        a.is_graduated,
        a.total_value_locked > 0,
{
}

/// Each accumulated balance is paid out exactly once: immediately after a
/// successful withdrawal nobody can withdraw again, and the authority's own
/// retry fails with `NoFundsToWithdraw`, until new bids accumulate funds.
pub proof fn lemma_withdraw_exactly_once(a: AuctionState, caller: u64)
    requires
        withdraw_error(a, caller) is None,
    ensures
        withdraw_error(auction_after_withdraw(a), a.authority) == Some(
            SuperpullProgramError::NoFundsToWithdraw,
        ),
        forall|c: u64| withdraw_error(auction_after_withdraw(a), c) is Some,
{
}

} // verus!
