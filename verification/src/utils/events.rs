//! Ordered, append-only notification of state transitions. Events are not
//! authoritative state: external observers consume them, the engine never
//! reads them back.

use vstd::prelude::*;

verus! {

/// A new auction was created.
#[derive(Clone, Copy, Debug, PartialEq, Eq, Structural)]
pub struct AuctionInitialized {
    pub auction: u64,
    pub authority: u64,
    pub merkle_tree: u64,
    pub token_mint: u64,
    pub collection_mint: u64,
    pub base_price: u64,
    pub price_increment: u64,
    pub max_supply: u64,
    pub minimum_items: u64,
    pub deadline: i64,
}

/// The current clearing price was queried.
#[derive(Clone, Copy, Debug, PartialEq, Eq, Structural)]
pub struct PriceUpdate {
    pub auction: u64,
    pub price: u64,
    pub supply: u64,
}

/// A bid was accepted and escrowed.
#[derive(Clone, Copy, Debug, PartialEq, Eq, Structural)]
pub struct BidPlaced {
    pub auction: u64,
    pub bidder: u64,
    pub amount: u64,
    pub new_supply: u64,
}

/// The auction reached its graduation threshold.
#[derive(Clone, Copy, Debug, PartialEq, Eq, Structural)]
pub struct AuctionGraduated {
    pub auction: u64,
    pub total_items: u64,
    pub total_value_locked: u64,
}

/// A bidder's escrowed funds were returned in full.
#[derive(Clone, Copy, Debug, PartialEq, Eq, Structural)]
pub struct BidRefunded {
    pub auction: u64,
    pub bidder: u64,
    pub amount: u64,
}

/// The accumulated escrow was paid out to the authority.
#[derive(Clone, Copy, Debug, PartialEq, Eq, Structural)]
pub struct FundsWithdrawn {
    pub auction: u64,
    pub authority: u64,
    pub amount: u64,
}

/// One entry of the event stream.
#[derive(Clone, Copy, Debug, PartialEq, Eq, Structural)]
pub enum AuctionEvent {
    Initialized(AuctionInitialized),
    Price(PriceUpdate),
    Bid(BidPlaced),
    Graduated(AuctionGraduated),
    Refunded(BidRefunded),
    Withdrawn(FundsWithdrawn),
}

/// The append-only event stream of one engine instance. The core guarantees
/// at least one emission per successful state-changing call, in the order
/// the mutations happen.
pub struct EventSink {
    log: Vec<AuctionEvent>,
}

impl EventSink {
    /// The stream as the sequence of events emitted so far, oldest first.
    pub closed spec fn view(self) -> Seq<AuctionEvent> {
        self.log@
    }

    /// An empty stream.
    pub fn new() -> (r: EventSink)
        ensures
            r@ == Seq::<AuctionEvent>::empty(),
    {
        EventSink { log: Vec::new() }
    }

    /// Append one event; nothing already emitted changes.
    pub fn emit(&mut self, event: AuctionEvent)
        ensures
            final(self)@ == old(self)@.push(event),
    {
        self.log.push(event);
    }

    /// How many events have been emitted.
    pub fn len(&self) -> (n: usize)
        ensures
            n == self@.len(),
    {
        self.log.len()
    }

    /// Read one already-emitted event.
    pub fn get(&self, i: usize) -> (e: &AuctionEvent)
        requires
            i < self@.len(),
        ensures
            *e == self@[i as int],
    {
        &self.log[i]
    }
}

} // verus!
