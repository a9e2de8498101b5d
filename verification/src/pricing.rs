//! The bonding curve: a deterministic, linear mapping from units already
//! sold to the clearing price of the next unit.

use vstd::prelude::*;

verus! {

/// Clearing price of the next unit when `supply` units have been sold:
/// `base_price + price_increment * supply`, as an unbounded integer.
pub open spec fn price(base_price: u64, price_increment: u64, supply: u64) -> int {
    base_price + price_increment * supply
}

/// The clearing price, checked against the 64-bit range. Returns `None`
/// exactly when the mathematical price does not fit in a `u64`.
pub fn checked_price(base_price: u64, price_increment: u64, supply: u64) -> (r: Option<u64>)
    ensures
        r is Some <==> price(base_price, price_increment, supply) <= u64::MAX,
        r matches Some(p) ==> p == price(base_price, price_increment, supply),
{
    match price_increment.checked_mul(supply) {
        Some(step) => base_price.checked_add(step),
        None => None,
    }
}

/// The curve is strictly increasing in the supply whenever the increment is
/// positive.
pub proof fn lemma_price_strictly_increasing(
    base_price: u64,
    price_increment: u64,
    s1: u64,
    s2: u64,
)
    requires
        price_increment > 0,
        s1 < s2,
    ensures
        price(base_price, price_increment, s1) < price(base_price, price_increment, s2),
{
    assert(price_increment * s1 < price_increment * s2) by (nonlinear_arith)
        requires
            price_increment > 0,
            s1 < s2,
    ;
}

} // verus!
