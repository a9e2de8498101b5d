//! The price query under the name the program entry point uses.

use vstd::prelude::*;

use crate::instructions::get_current_price::get_current_price_handler;
use crate::pricing;
use crate::state::auction::AuctionState;
use crate::utils::errors::SuperpullProgramError;
use crate::utils::events::{AuctionEvent, EventSink, PriceUpdate};

verus! {

/// Same query as `get_current_price_handler`: report the clearing price of
/// the next unit and emit `PriceUpdate`, touching nothing.
pub fn handler(auction_key: u64, auction: &AuctionState, sink: &mut EventSink) -> (result: Result<
    u64,
    SuperpullProgramError,
>)
    ensures
        result is Ok <==> pricing::price(
            auction.base_price,
            auction.price_increment,
            auction.current_supply,
        ) <= u64::MAX,
        (result matches Ok(p) ==> {
            &&& p == pricing::price(
                auction.base_price,
                auction.price_increment,
                auction.current_supply,
            )
            &&& final(sink)@ == old(sink)@.push(
                AuctionEvent::Price(
                    PriceUpdate { auction: auction_key, price: p, supply: auction.current_supply },
                ),
            )
        }),
        (result matches Err(e) ==> {
            &&& e == SuperpullProgramError::MathOverflow
            &&& final(sink)@ == old(sink)@
        }),
{
    get_current_price_handler(auction_key, auction, sink)
}

} // verus!
