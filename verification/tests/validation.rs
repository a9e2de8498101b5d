use superpull_program::instructions::initialize_auction::initialize_auction_handler;
use superpull_program::instructions::place_bid::place_bid_handler;
use superpull_program::instructions::refund::refund_handler;
use superpull_program::instructions::withdraw::withdraw_handler;
use superpull_program::state::auction::AuctionState;
use superpull_program::state::bid::BidState;
use superpull_program::utils::errors::SuperpullProgramError;
use superpull_program::utils::events::EventSink;

fn create(
    base_price: u64,
    price_increment: u64,
    max_supply: u64,
    minimum_items: u64,
    deadline: i64,
    now: i64,
    source_set_ready: bool,
    authority: u64,
) -> Result<AuctionState, SuperpullProgramError> {
    let mut sink = EventSink::new();
    let before = sink.len();
    let result = initialize_auction_handler(
        7,
        authority,
        2,
        3,
        4,
        base_price,
        price_increment,
        max_supply,
        minimum_items,
        deadline,
        now,
        source_set_ready,
        &mut sink,
    );
    if result.is_err() {
        assert_eq!(sink.len(), before, "a rejected creation must emit nothing");
    }
    result
}

#[test]
fn creation_validates_every_parameter_in_order() {
    assert_eq!(
        create(0, 1, 10, 1, 100, 0, true, 1),
        Err(SuperpullProgramError::InvalidBasePrice)
    );
    assert_eq!(
        create(5, 0, 10, 1, 100, 0, true, 1),
        Err(SuperpullProgramError::InvalidPriceIncrement)
    );
    assert_eq!(
        create(5, 1, 0, 1, 100, 0, true, 1),
        Err(SuperpullProgramError::InvalidMaxSupply)
    );
    assert_eq!(
        create(5, 1, 10, 0, 100, 0, true, 1),
        Err(SuperpullProgramError::InvalidMinimumItems)
    );
    assert_eq!(
        create(5, 1, 10, 11, 100, 0, true, 1),
        Err(SuperpullProgramError::InvalidMinimumItems)
    );
    assert_eq!(
        create(5, 1, 10, 10, 100, 0, true, 1).map(|a| a.minimum_items),
        Ok(10),
        "minimum_items equal to max_supply is allowed"
    );
    assert_eq!(
        create(5, 1, 10, 1, 100, 100, true, 1),
        Err(SuperpullProgramError::InvalidDeadline)
    );
    assert_eq!(
        create(5, 1, 10, 1, 100, 0, false, 1),
        Err(SuperpullProgramError::InvalidMerkleTree)
    );
    assert_eq!(
        create(5, 1, 10, 1, 100, 0, true, 0),
        Err(SuperpullProgramError::InvalidAuthority)
    );
}

#[test]
fn creation_starts_empty_and_ungraduated() {
    let auction = create(5, 1, 10, 1, 100, 99, true, 1).expect("valid parameters");
    assert_eq!(auction.current_supply, 0);
    assert_eq!(auction.total_value_locked, 0);
    assert!(!auction.is_graduated);
    assert_eq!(auction.base_price, 5);
    assert_eq!(auction.price_increment, 1);
    assert_eq!(auction.max_supply, 10);
    assert_eq!(auction.minimum_items, 1);
    assert_eq!(auction.deadline, 100);
}

#[test]
fn zero_amount_and_null_bidder_are_rejected() {
    let mut sink = EventSink::new();
    let mut auction = create(5, 1, 10, 1, 100, 0, true, 1).expect("valid parameters");
    let mut bid = BidState::new(7, 9);
    assert_eq!(
        place_bid_handler(7, &mut auction, &mut bid, 9, 0, 10, &mut sink),
        Err(SuperpullProgramError::InvalidBidAmount)
    );
    let mut null_bid = BidState::new(7, 0);
    assert_eq!(
        place_bid_handler(7, &mut auction, &mut null_bid, 0, 5, 10, &mut sink),
        Err(SuperpullProgramError::InvalidBidder)
    );
    assert_eq!(auction.current_supply, 0);
    assert_eq!(sink.len(), 0);
}

#[test]
fn wrong_amounts_above_and_below_are_rejected() {
    let mut sink = EventSink::new();
    let mut auction = create(100_000, 10_000, 100, 5, 1_000, 0, true, 1).expect("valid parameters");
    let mut bid = BidState::new(7, 9);
    // the price at supply 0 is exactly 100000
    assert_eq!(
        place_bid_handler(7, &mut auction, &mut bid, 9, 99_999, 10, &mut sink),
        Err(SuperpullProgramError::InsufficientBidAmount)
    );
    assert_eq!(
        place_bid_handler(7, &mut auction, &mut bid, 9, 100_001, 10, &mut sink),
        Err(SuperpullProgramError::InsufficientBidAmount)
    );
    assert_eq!(auction.current_supply, 0);
    assert_eq!(auction.total_value_locked, 0);
    assert_eq!(bid.amount, 0);
    assert_eq!(sink.len(), 0);
}

#[test]
fn expired_auction_rejects_new_bids() {
    let mut sink = EventSink::new();
    let mut auction = create(5, 1, 10, 2, 100, 0, true, 1).expect("valid parameters");
    let mut bid = BidState::new(7, 9);
    assert_eq!(
        place_bid_handler(7, &mut auction, &mut bid, 9, 5, 101, &mut sink),
        Err(SuperpullProgramError::AuctionExpired)
    );
}

#[test]
fn supply_cap_rejects_bids_once_reached() {
    let mut sink = EventSink::new();
    let mut auction = create(5, 1, 1, 1, 100, 0, true, 1).expect("valid parameters");
    let mut bid = BidState::new(7, 9);
    place_bid_handler(7, &mut auction, &mut bid, 9, 5, 10, &mut sink)
        .expect("the only unit is sold at the base price");
    assert!(auction.is_graduated);
    assert_eq!(
        place_bid_handler(7, &mut auction, &mut bid, 9, 6, 10, &mut sink),
        Err(SuperpullProgramError::MaxSupplyReached)
    );
    assert_eq!(auction.current_supply, 1);
}

#[test]
fn price_overflow_is_a_math_error() {
    let mut sink = EventSink::new();
    // one unit already sold at the 64-bit maximum: the next price overflows
    let mut auction = AuctionState {
        authority: 1,
        merkle_tree: 2,
        token_mint: 3,
        collection_mint: 4,
        base_price: u64::MAX,
        price_increment: 1,
        current_supply: 1,
        max_supply: 2,
        total_value_locked: u64::MAX,
        minimum_items: 1,
        deadline: 100,
        is_graduated: true,
    };
    let mut bid = BidState::new(7, 9);
    assert_eq!(
        place_bid_handler(7, &mut auction, &mut bid, 9, 5, 10, &mut sink),
        Err(SuperpullProgramError::MathOverflow)
    );
}

#[test]
fn escrow_overflow_is_a_math_error() {
    let mut sink = EventSink::new();
    // the price itself fits, but adding it to the escrow total would not
    let mut auction = AuctionState {
        authority: 1,
        merkle_tree: 2,
        token_mint: 3,
        collection_mint: 4,
        base_price: 100,
        price_increment: 1,
        current_supply: 1,
        max_supply: 10,
        total_value_locked: u64::MAX - 50,
        minimum_items: 1,
        deadline: 100,
        is_graduated: true,
    };
    let mut bid = BidState::new(7, 9);
    assert_eq!(
        place_bid_handler(7, &mut auction, &mut bid, 9, 101, 10, &mut sink),
        Err(SuperpullProgramError::MathOverflow)
    );
    assert_eq!(auction.total_value_locked, u64::MAX - 50);
}

#[test]
fn bid_record_overflow_is_a_math_error() {
    let mut sink = EventSink::new();
    let mut auction = AuctionState {
        authority: 1,
        merkle_tree: 2,
        token_mint: 3,
        collection_mint: 4,
        base_price: 100,
        price_increment: 1,
        current_supply: 1,
        max_supply: 10,
        total_value_locked: 100,
        minimum_items: 1,
        deadline: 100,
        is_graduated: true,
    };
    let mut bid = BidState {
        auction: 7,
        bidder: 9,
        amount: u64::MAX - 50,
        units_won: 1,
    };
    assert_eq!(
        place_bid_handler(7, &mut auction, &mut bid, 9, 101, 10, &mut sink),
        Err(SuperpullProgramError::MathOverflow)
    );
    assert_eq!(bid.amount, u64::MAX - 50);
    assert_eq!(auction.current_supply, 1);
}

#[test]
fn refund_larger_than_escrow_is_a_math_error() {
    let mut sink = EventSink::new();
    // a recorded contribution above the escrow total is a bookkeeping
    // defect; it must surface, not underflow
    let mut auction = AuctionState {
        authority: 1,
        merkle_tree: 2,
        token_mint: 3,
        collection_mint: 4,
        base_price: 100,
        price_increment: 1,
        current_supply: 1,
        max_supply: 10,
        total_value_locked: 50,
        minimum_items: 2,
        deadline: 100,
        is_graduated: false,
    };
    let mut bid = BidState {
        auction: 7,
        bidder: 9,
        amount: 51,
        units_won: 1,
    };
    assert_eq!(
        refund_handler(7, &mut auction, &mut bid, 101, &mut sink),
        Err(SuperpullProgramError::MathOverflow)
    );
    assert_eq!(auction.total_value_locked, 50);
    assert_eq!(bid.amount, 51);
}

#[test]
fn withdraw_by_null_authority_is_rejected() {
    let mut sink = EventSink::new();
    let mut auction = AuctionState {
        authority: 0,
        merkle_tree: 2,
        token_mint: 3,
        collection_mint: 4,
        base_price: 100,
        price_increment: 1,
        current_supply: 1,
        max_supply: 10,
        total_value_locked: 100,
        minimum_items: 1,
        deadline: 100,
        is_graduated: true,
    };
    assert_eq!(
        withdraw_handler(7, &mut auction, 0, &mut sink),
        Err(SuperpullProgramError::InvalidAuthority)
    );
    assert_eq!(auction.total_value_locked, 100);
}
