//! Read-only price query: a pure projection of the auction record through
//! the bonding curve, observable through a `PriceUpdate` event.

use vstd::prelude::*;

use crate::pricing;
use crate::state::auction::AuctionState;
use crate::utils::errors::SuperpullProgramError;
use crate::utils::events::{AuctionEvent, EventSink, PriceUpdate};

verus! {

/// Report the clearing price of the next unit and emit `PriceUpdate`. The
/// record is not touched; the query fails only where the mathematical price
/// leaves the 64-bit range.
pub fn get_current_price_handler(
    auction_key: u64,
    auction: &AuctionState,
    sink: &mut EventSink,
) -> (result: Result<u64, SuperpullProgramError>)
    ensures
        result is Ok <==> pricing::price(
            auction.base_price,
            auction.price_increment,
            auction.current_supply,
        ) <= u64::MAX,
        (result matches Ok(p) ==> {
            &&& p == pricing::price(
                auction.base_price,
                auction.price_increment,
                auction.current_supply,
            )
            &&& final(sink)@ == old(sink)@.push(
                AuctionEvent::Price(
                    PriceUpdate { auction: auction_key, price: p, supply: auction.current_supply },
                ),
            )
        }),
        (result matches Err(e) ==> {
            &&& e == SuperpullProgramError::MathOverflow
            &&& final(sink)@ == old(sink)@
        }),
{
    let current_price = match pricing::checked_price(
        auction.base_price,
        auction.price_increment,
        auction.current_supply,
    ) {
        Some(p) => p,
        None => {
            return Err(SuperpullProgramError::MathOverflow);
        },
    };
    sink.emit(
        AuctionEvent::Price(
            PriceUpdate {
                auction: auction_key,
                price: current_price,
                supply: auction.current_supply,
            },
        ),
    );
    Ok(current_price)
}

} // verus!
