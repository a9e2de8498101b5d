//! Withdrawal: after graduation the authority, and nobody else, collects the
//! accumulated escrow in one piece.

use vstd::prelude::*;

use crate::actions::CustodyTransfer;
use crate::state::auction::{engine_step, successful_withdraw_transition, AuctionState};
use crate::utils::errors::SuperpullProgramError;
use crate::utils::events::{AuctionEvent, EventSink, FundsWithdrawn};

verus! {

/// Why a withdrawal by `caller` is rejected against the given record;
/// `None` exactly when it must be paid. A second withdrawal after the
/// escrow was emptied fails: each accumulated balance is paid out once.
pub open spec fn withdraw_error(a: AuctionState, caller: u64) -> Option<SuperpullProgramError> {
    if caller != a.authority {
        Some(SuperpullProgramError::UnauthorizedWithdraw)
    } else if !a.is_graduated {
        Some(SuperpullProgramError::NotGraduated)
    } else if a.authority == 0 {
        Some(SuperpullProgramError::InvalidAuthority)
    } else if a.total_value_locked == 0 {
        Some(SuperpullProgramError::NoFundsToWithdraw)
    } else {
        None
    }
}

/// The auction record after a withdrawal: the escrow is empty.
pub open spec fn auction_after_withdraw(a: AuctionState) -> AuctionState {
    AuctionState { total_value_locked: 0u64, ..a }
}

/// Pay the whole escrow out to the authority, or reject with a specific
/// error and no state changed. On success `FundsWithdrawn` is emitted and
/// the host owes the authority the returned custody transfer.
pub fn withdraw_handler(
    auction_key: u64,
    auction: &mut AuctionState,
    caller: u64,
    sink: &mut EventSink,
) -> (result: Result<CustodyTransfer, SuperpullProgramError>)
    requires
        old(auction).well_formed(),
    ensures
        final(auction).well_formed(),
        engine_step(*old(auction), *final(auction)),
        old(auction).is_graduated ==> final(auction).is_graduated,
        result is Ok <==> withdraw_error(*old(auction), caller) is None,
        (result matches Err(e) ==> {
            &&& withdraw_error(*old(auction), caller) == Some(e)
            &&& *final(auction) == *old(auction)
            &&& final(sink)@ == old(sink)@
        }),
        (result matches Ok(transfer) ==> {
            &&& *final(auction) == auction_after_withdraw(*old(auction))
            &&& successful_withdraw_transition(*old(auction), *final(auction))
            &&& final(sink)@ == old(sink)@.push(
                AuctionEvent::Withdrawn(
                    FundsWithdrawn {
                        auction: auction_key,
                        authority: old(auction).authority,
                        amount: old(auction).total_value_locked,
                    },
                ),
            )
            &&& transfer == (CustodyTransfer {
                asset: old(auction).token_mint,
                from: auction_key,
                to: old(auction).authority,
                amount: old(auction).total_value_locked,
            })
        }),
{
    if caller != auction.authority {
        return Err(SuperpullProgramError::UnauthorizedWithdraw);
    }
    if !auction.is_graduated {
        return Err(SuperpullProgramError::NotGraduated);
    }
    if auction.authority == 0 {
        return Err(SuperpullProgramError::InvalidAuthority);
    }
    let amount = auction.total_value_locked;
    if amount == 0 {
        return Err(SuperpullProgramError::NoFundsToWithdraw);
    }
    auction.total_value_locked = 0;
    sink.emit(
        AuctionEvent::Withdrawn(
            FundsWithdrawn { auction: auction_key, authority: auction.authority, amount },
        ),
    );
    Ok(
        CustodyTransfer {
            asset: auction.token_mint,
            from: auction_key,
            to: auction.authority,
            amount,
        },
    )
}

} // verus!
