//! Actions the host must perform against the external collaborators.
//!
//! The core decides; the custody rail that actually moves value and the
//! issuance service that mints a collectible are outside it. Each
//! state-changing operation returns the exact actions it committed to, and
//! the host applies them atomically with the state change: if a collaborator
//! fails, the host discards the new state so that no partial effect is
//! observable.

use vstd::prelude::*;

verus! {

/// Move `amount` of the fungible `asset` from the custody of `from` to the
/// custody of `to`.
#[derive(Clone, Copy, Debug, PartialEq, Eq, Structural)]
pub struct CustodyTransfer {
    pub asset: u64,
    pub from: u64,
    pub to: u64,
    pub amount: u64,
}

/// Mint exactly one unit of `collection`, drawn from the backing
/// `source_set`, to `owner` — authorized by the auction's own delegation,
/// not by the caller.
#[derive(Clone, Copy, Debug, PartialEq, Eq, Structural)]
pub struct IssueOne {
    pub source_set: u64,
    pub collection: u64,
    pub owner: u64,
}

/// Everything a successful bid obliges the host to perform: the escrow
/// debit and the issuance of the unit just won.
#[derive(Clone, Copy, Debug, PartialEq, Eq, Structural)]
pub struct BidSettlement {
    pub transfer: CustodyTransfer,
    pub issue: IssueOne,
}

} // verus!
