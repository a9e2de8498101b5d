//! Auction creation: parameter validation and the fresh record.
//!
//! The host addresses the record by the composite key (authority,
//! collection_mint) and must refuse to create a second auction for a key
//! that already has one; `auction_key` is the identity the host assigned to
//! the new record. Whether the backing item set is non-empty is externally
//! verifiable and handed in as `source_set_ready`.

use vstd::prelude::*;

use crate::state::auction::AuctionState;
use crate::utils::errors::SuperpullProgramError;
use crate::utils::events::{AuctionEvent, AuctionInitialized, EventSink};

verus! {

/// Why creation with these parameters is rejected at time `now`; `None`
/// exactly when the auction must be created. The checks are made in this
/// order and the first failure wins.
pub open spec fn init_error(
    base_price: u64,
    price_increment: u64,
    max_supply: u64,
    minimum_items: u64,
    deadline: i64,
    now: i64,
    source_set_ready: bool,
    authority: u64,
) -> Option<SuperpullProgramError> {
    if base_price == 0 {
        Some(SuperpullProgramError::InvalidBasePrice)
    } else if price_increment == 0 {
        Some(SuperpullProgramError::InvalidPriceIncrement)
    } else if max_supply == 0 {
        Some(SuperpullProgramError::InvalidMaxSupply)
    } else if !(minimum_items > 0 && minimum_items <= max_supply) {
        Some(SuperpullProgramError::InvalidMinimumItems)
    } else if deadline <= now {
        Some(SuperpullProgramError::InvalidDeadline)
    } else if !source_set_ready {
        Some(SuperpullProgramError::InvalidMerkleTree)
    } else if authority == 0 {
        Some(SuperpullProgramError::InvalidAuthority)
    } else {
        None
    }
}

/// The record a successful creation allocates: the supplied parameters,
/// nothing sold, nothing escrowed, not graduated.
pub open spec fn new_auction(
    authority: u64,
    merkle_tree: u64,
    token_mint: u64,
    collection_mint: u64,
    base_price: u64,
    price_increment: u64,
    max_supply: u64,
    minimum_items: u64,
    deadline: i64,
) -> AuctionState {
    AuctionState {
        authority,
        merkle_tree,
        token_mint,
        collection_mint,
        base_price,
        price_increment,
        current_supply: 0u64,
        max_supply,
        total_value_locked: 0u64,
        minimum_items,
        deadline,
        is_graduated: false,
    }
}

/// Validate the parameters and allocate a fresh, well-formed auction
/// record, or reject with a specific error and no state created.
pub fn initialize_auction_handler(
    auction_key: u64,
    authority: u64,
    merkle_tree: u64,
    token_mint: u64,
    collection_mint: u64,
    base_price: u64,
    price_increment: u64,
    max_supply: u64,
    minimum_items: u64,
    deadline: i64,
    now: i64,
    source_set_ready: bool,
    sink: &mut EventSink,
) -> (result: Result<AuctionState, SuperpullProgramError>)
    ensures
        result is Ok <==> init_error(
            base_price,
            price_increment,
            max_supply,
            minimum_items,
            deadline,
            now,
            source_set_ready,
            authority,
        ) is None,
        (result matches Err(e) ==> {
            &&& init_error(
                base_price,
                price_increment,
                max_supply,
                minimum_items,
                deadline,
                now,
                source_set_ready,
                authority,
            ) == Some(e)
            &&& final(sink)@ == old(sink)@
        }),
        (result matches Ok(a) ==> {
            &&& a == new_auction(
                authority,
                merkle_tree,
                token_mint,
                collection_mint,
                base_price,
                price_increment,
                max_supply,
                minimum_items,
                deadline,
            )
            &&& a.well_formed()
            &&& deadline > now
            &&& final(sink)@ == old(sink)@.push(
                AuctionEvent::Initialized(
                    AuctionInitialized {
                        auction: auction_key,
                        authority,
                        merkle_tree,
                        token_mint,
                        collection_mint,
                        base_price,
                        price_increment,
                        max_supply,
                        minimum_items,
                        deadline,
                    },
                ),
            )
        }),
{
    if base_price == 0 {
        return Err(SuperpullProgramError::InvalidBasePrice);
    }
    if price_increment == 0 {
        return Err(SuperpullProgramError::InvalidPriceIncrement);
    }
    if max_supply == 0 {
        return Err(SuperpullProgramError::InvalidMaxSupply);
    }
    if !(minimum_items > 0 && minimum_items <= max_supply) {
        return Err(SuperpullProgramError::InvalidMinimumItems);
    }
    if deadline <= now {
        return Err(SuperpullProgramError::InvalidDeadline);
    }
    if !source_set_ready {
        return Err(SuperpullProgramError::InvalidMerkleTree);
    }
    if authority == 0 {
        return Err(SuperpullProgramError::InvalidAuthority);
    }
    let auction = AuctionState {
        authority,
        merkle_tree,
        token_mint,
        collection_mint,
        base_price,
        price_increment,
        current_supply: 0,
        max_supply,
        total_value_locked: 0,
        minimum_items,
        deadline,
        is_graduated: false,
    };
    sink.emit(
        AuctionEvent::Initialized(
            AuctionInitialized {
                auction: auction_key,
                authority,
                merkle_tree,
                token_mint,
                collection_mint,
                base_price,
                price_increment,
                max_supply,
                minimum_items,
                deadline,
            },
        ),
    );
    Ok(auction)
}

} // verus!
