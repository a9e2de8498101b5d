//! A bonding-curve auction with escrow and threshold-triggered graduation.
//!
//! Buyers place bids against a linearly increasing price curve; paid funds
//! are escrowed by the auction. Once a minimum number of successful bids is
//! reached the auction graduates: withdrawal by the authority is unlocked and
//! refunds are permanently disabled. If the deadline passes before
//! graduation, bidders may reclaim their funds.
//!
//! The library is the decision core alone. Moving value between accounts
//! (custody) and minting a collectible per successful bid (issuance) are
//! external collaborators: each state-changing operation returns the custody
//! and issuance actions the host must perform, and the host applies them
//! atomically with the state change.

pub mod actions;
pub mod instructions;
pub mod laws;
pub mod pricing;
pub mod state;
pub mod utils;

use vstd::prelude::*;

use crate::actions::BidSettlement;
use crate::state::auction::AuctionState;
use crate::state::bid::BidState;
use crate::utils::errors::SuperpullProgramError;
use crate::utils::events::EventSink;

verus! {

/// Program entry point for auction creation; see
/// [`instructions::initialize_auction::initialize_auction_handler`].
pub fn initialize_auction(
    auction_key: u64,
    authority: u64,
    merkle_tree: u64,
    token_mint: u64,
    collection_mint: u64,
    base_price: u64,
    price_increment: u64,
    max_supply: u64,
    minimum_items: u64,
    deadline: i64,
    now: i64,
    source_set_ready: bool,
    sink: &mut EventSink,
) -> (result: Result<AuctionState, SuperpullProgramError>)
    ensures
        result is Ok <==> instructions::initialize_auction::init_error(
            base_price,
            price_increment,
            max_supply,
            minimum_items,
            deadline,
            now,
            source_set_ready,
            authority,
        ) is None,
        (result matches Err(e) ==> {
            &&& instructions::initialize_auction::init_error(
                base_price,
                price_increment,
                max_supply,
                minimum_items,
                deadline,
                now,
                source_set_ready,
                authority,
            ) == Some(e)
            &&& final(sink)@ == old(sink)@
        }),
        (result matches Ok(a) ==> {
            &&& a == instructions::initialize_auction::new_auction(
                authority,
                merkle_tree,
                token_mint,
                collection_mint,
                base_price,
                price_increment,
                max_supply,
                minimum_items,
                deadline,
            )
            &&& a.well_formed()
            &&& final(sink)@ == old(sink)@.push(
                utils::events::AuctionEvent::Initialized(
                    utils::events::AuctionInitialized {
                        auction: auction_key,
                        authority,
                        merkle_tree,
                        token_mint,
                        collection_mint,
                        base_price,
                        price_increment,
                        max_supply,
                        minimum_items,
                        deadline,
                    },
                ),
            )
        }),
{
    instructions::initialize_auction::initialize_auction_handler(
        auction_key,
        authority,
        merkle_tree,
        token_mint,
        collection_mint,
        base_price,
        price_increment,
        max_supply,
        minimum_items,
        deadline,
        now,
        source_set_ready,
        sink,
    )
}

/// Program entry point for the price query; see
/// [`instructions::get_current_price::get_current_price_handler`].
pub fn get_current_price(
    auction_key: u64,
    auction: &AuctionState,
    sink: &mut EventSink,
) -> (result: Result<u64, SuperpullProgramError>)
    ensures
        result is Ok <==> pricing::price(
            auction.base_price,
            auction.price_increment,
            auction.current_supply,
        ) <= u64::MAX,
        (result matches Ok(p) ==> {
            &&& p == pricing::price(
                auction.base_price,
                auction.price_increment,
                auction.current_supply,
            )
            &&& final(sink)@ == old(sink)@.push(
                utils::events::AuctionEvent::Price(
                    utils::events::PriceUpdate {
                        auction: auction_key,
                        price: p,
                        supply: auction.current_supply,
                    },
                ),
            )
        }),
        (result matches Err(e) ==> {
            &&& e == SuperpullProgramError::MathOverflow
            &&& final(sink)@ == old(sink)@
        }),
{
    instructions::get_price::handler(auction_key, auction, sink)
}

/// Program entry point for bidding; see
/// [`instructions::place_bid::place_bid_handler`].
pub fn place_bid(
    auction_key: u64,
    auction: &mut AuctionState,
    bid: &mut BidState,
    bidder: u64,
    amount: u64,
    now: i64,
    sink: &mut EventSink,
) -> (result: Result<BidSettlement, SuperpullProgramError>)
    requires
        old(auction).well_formed(),
        old(bid).keyed_by(auction_key, bidder),
    ensures
        final(auction).well_formed(),
        final(bid).keyed_by(auction_key, bidder),
        state::auction::engine_step(*old(auction), *final(auction)),
        old(auction).is_graduated ==> final(auction).is_graduated,
        result is Ok <==> instructions::place_bid::bid_error(
            *old(auction),
            *old(bid),
            bidder,
            amount,
            now,
        ) is None,
        (result matches Err(e) ==> {
            &&& instructions::place_bid::bid_error(*old(auction), *old(bid), bidder, amount, now)
                == Some(e)
            &&& *final(auction) == *old(auction)
            &&& *final(bid) == *old(bid)
            &&& final(sink)@ == old(sink)@
        }),
        (result matches Ok(settlement) ==> {
            &&& *final(auction) == instructions::place_bid::auction_after_bid(
                *old(auction),
                amount,
            )
            &&& *final(bid) == instructions::place_bid::bid_after_bid(*old(bid), amount)
            &&& final(sink)@ == instructions::place_bid::events_after_bid(
                old(sink)@,
                auction_key,
                *old(auction),
                bidder,
                amount,
            )
            &&& settlement == (BidSettlement {
                transfer: actions::CustodyTransfer {
                    asset: old(auction).token_mint,
                    from: bidder,
                    to: auction_key,
                    amount,
                },
                issue: actions::IssueOne {
                    source_set: old(auction).merkle_tree,
                    collection: old(auction).collection_mint,
                    owner: bidder,
                },
            })
        }),
{
    instructions::place_bid::place_bid_handler(
        auction_key,
        auction,
        bid,
        bidder,
        amount,
        now,
        sink,
    )
}

} // verus!
