//! The engine's operations. Each takes the records it touches, the caller's
//! identity where authorization matters, and the current time where the
//! deadline matters; each either commits one atomic state transition and
//! reports the external actions the host owes, or rejects the call with a
//! specific error and changes nothing.

pub mod get_current_price;
pub mod get_price;
pub mod initialize_auction;
pub mod place_bid;
pub mod refund;
pub mod withdraw;
