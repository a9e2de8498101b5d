use superpull_program::get_current_price;
use superpull_program::initialize_auction;
use superpull_program::instructions::get_price;
use superpull_program::place_bid;
use superpull_program::pricing::checked_price;
use superpull_program::state::auction::AuctionState;
use superpull_program::state::bid::BidState;
use superpull_program::utils::errors::SuperpullProgramError;
use superpull_program::utils::events::{AuctionEvent, EventSink};

#[test]
fn checked_price_follows_the_linear_curve() {
    assert_eq!(checked_price(5, 3, 0), Some(5));
    assert_eq!(checked_price(5, 3, 4), Some(17));
    assert_eq!(checked_price(100_000, 10_000, 5), Some(150_000));
    // strictly increasing while the increment is positive
    let mut previous = checked_price(100_000, 10_000, 0).unwrap();
    for supply in 1..10u64 {
        let next = checked_price(100_000, 10_000, supply).unwrap();
        assert!(next > previous);
        previous = next;
    }
    // at supply zero only the base price counts
    assert_eq!(checked_price(9, 1, 0), Some(9));
    assert_eq!(checked_price(u64::MAX, 1, 0), Some(u64::MAX));
    // the 64-bit range is the only limit
    assert_eq!(checked_price(u64::MAX, 1, 1), None);
    assert_eq!(checked_price(1, u64::MAX, 2), None);
}

#[test]
fn price_query_reports_and_emits_without_mutating() {
    let mut sink = EventSink::new();
    let auction = initialize_auction(
        7, 1, 2, 3, 4, 100_000, 10_000, 100, 5, 1_000, 0, true, &mut sink,
    )
    .expect("valid parameters");
    let before = auction;
    let price = get_current_price(7, &auction, &mut sink).expect("the price fits in 64 bits");
    assert_eq!(price, 100_000);
    assert_eq!(auction, before, "a query never mutates the record");
    match sink.get(sink.len() - 1) {
        AuctionEvent::Price(p) => {
            assert_eq!(p.auction, 7);
            assert_eq!(p.price, 100_000);
            assert_eq!(p.supply, 0);
        }
        other => panic!("expected PriceUpdate, got {:?}", other),
    }
}

#[test]
fn price_query_tracks_the_supply() {
    let mut sink = EventSink::new();
    let mut auction = initialize_auction(
        7, 1, 2, 3, 4, 100_000, 10_000, 100, 5, 1_000, 0, true, &mut sink,
    )
    .expect("valid parameters");
    let mut bid = BidState::new(7, 9);
    place_bid(7, &mut auction, &mut bid, 9, 100_000, 10, &mut sink)
        .expect("first bid at the base price must succeed");
    let price = get_price::handler(7, &auction, &mut sink).expect("the price fits in 64 bits");
    assert_eq!(price, 110_000);
}

#[test]
fn price_query_overflow_is_a_math_error() {
    let mut sink = EventSink::new();
    let auction = AuctionState {
        authority: 1,
        merkle_tree: 2,
        token_mint: 3,
        collection_mint: 4,
        base_price: u64::MAX,
        price_increment: 1,
        current_supply: 1,
        max_supply: 2,
        total_value_locked: u64::MAX,
        minimum_items: 1,
        deadline: 100,
        is_graduated: true,
    };
    let before = sink.len();
    assert_eq!(
        get_current_price(7, &auction, &mut sink),
        Err(SuperpullProgramError::MathOverflow)
    );
    assert_eq!(sink.len(), before, "a failed query emits nothing");
}
