use settlement_switch::address::Address;
use settlement_switch::arith::saturating_mul;
use settlement_switch::chainlink::{ChainlinkPriceFeed, FEED_ANSWER_USD};
use settlement_switch::error::{ErrorKind, SwitchError};
use settlement_switch::price_oracle::{gas_cost_usd, OracleEvent, PriceOracle, WEI_PER_NATIVE};

fn addr(tag: u8) -> Address {
    Address::from_bytes([tag; 20])
}

#[test]
fn saturating_mul_clamps() {
    assert_eq!(saturating_mul(3, 4), 12);
    assert_eq!(saturating_mul(u128::MAX, 2), u128::MAX);
    assert_eq!(saturating_mul(u128::MAX, 0), 0);
}

#[test]
fn gas_cost_formula_example() {
    // 100,000 gas at 50 gwei with the native token at $2000.00:
    // exactly $10.00 in 8-decimal fixed point.
    let cost = gas_cost_usd(100_000, 50_000_000_000, 200_000_000_000);
    assert_eq!(cost, 1_000_000_000);
}

#[test]
fn gas_cost_formula_saturates_instead_of_wrapping() {
    let cost = gas_cost_usd(u128::MAX, u128::MAX, u128::MAX);
    assert_eq!(cost, u128::MAX / WEI_PER_NATIVE);
}

#[test]
fn feed_handle_reports_reference_answer() {
    let feed = ChainlinkPriceFeed::new(addr(7));
    assert_eq!(feed.address, addr(7));
    assert_eq!(feed.get_price(), Ok(FEED_ANSWER_USD));
}

#[test]
fn oracle_setters_are_authority_gated() {
    let owner = addr(1);
    let stranger = addr(2);
    let mut oracle = PriceOracle::new(owner);
    assert_eq!(
        oracle.set_gas_price(stranger, 1, 100),
        Err(SwitchError::NotOwner)
    );
    assert_eq!(
        oracle.set_token_price_feed(stranger, addr(3), addr(4)),
        Err(SwitchError::NotOwner)
    );
    assert_eq!(
        oracle.set_native_price_feed(stranger, 1, addr(4)),
        Err(SwitchError::NotOwner)
    );
    assert_eq!(oracle.get_gas_price(1), Err(SwitchError::GasPriceNotConfigured));
}

#[test]
fn oracle_setters_reject_zero_values() {
    let owner = addr(1);
    let mut oracle = PriceOracle::new(owner);
    assert_eq!(oracle.set_gas_price(owner, 0, 100), Err(SwitchError::ZeroChainId));
    assert_eq!(oracle.set_gas_price(owner, 1, 0), Err(SwitchError::ZeroGasPrice));
    assert_eq!(
        oracle.set_token_price_feed(owner, Address::zero(), addr(4)),
        Err(SwitchError::ZeroAddress)
    );
    assert_eq!(
        oracle.set_token_price_feed(owner, addr(3), Address::zero()),
        Err(SwitchError::ZeroAddress)
    );
    assert_eq!(
        oracle.set_native_price_feed(owner, 1, Address::zero()),
        Err(SwitchError::ZeroAddress)
    );
}

#[test]
fn oracle_records_last_write_and_events() {
    let owner = addr(1);
    let mut oracle = PriceOracle::new(owner);
    oracle.set_gas_price(owner, 5, 100).unwrap();
    oracle.set_gas_price(owner, 5, 250).unwrap();
    assert_eq!(oracle.get_gas_price(5), Ok(250));
    assert_eq!(oracle.events.len(), 2);
    match &oracle.events[1] {
        OracleEvent::Gas(e) => {
            assert_eq!(e.chain_id, 5);
            assert_eq!(e.gas_price, 250);
        }
        _ => panic!("expected a gas price notification"),
    }
}

#[test]
fn oracle_prices_require_feeds() {
    let owner = addr(1);
    let mut oracle = PriceOracle::new(owner);
    let token = addr(3);
    assert_eq!(oracle.get_token_price(token), Err(SwitchError::FeedNotConfigured));
    assert_eq!(oracle.get_native_token_price(9), Err(SwitchError::FeedNotConfigured));
    oracle.set_token_price_feed(owner, token, addr(4)).unwrap();
    oracle.set_native_price_feed(owner, 9, addr(5)).unwrap();
    assert_eq!(oracle.get_token_price(token), Ok(FEED_ANSWER_USD));
    assert_eq!(oracle.get_native_token_price(9), Ok(FEED_ANSWER_USD));
}

#[test]
fn oracle_gas_cost_consults_gas_price_first() {
    let owner = addr(1);
    let mut oracle = PriceOracle::new(owner);
    assert_eq!(
        oracle.calculate_gas_cost(2, 100_000),
        Err(SwitchError::GasPriceNotConfigured)
    );
    oracle.set_gas_price(owner, 2, 50_000_000_000).unwrap();
    assert_eq!(
        oracle.calculate_gas_cost(2, 100_000),
        Err(SwitchError::FeedNotConfigured)
    );
    oracle.set_native_price_feed(owner, 2, addr(5)).unwrap();
    // 100,000 * 50e9 * 1e8 / 1e18 = 500,000 ($0.005 at 8 decimals).
    assert_eq!(oracle.calculate_gas_cost(2, 100_000), Ok(500_000));
}

#[test]
fn error_kinds_follow_the_taxonomy() {
    assert_eq!(SwitchError::NotOwner.kind(), ErrorKind::Authorization);
    assert_eq!(SwitchError::ZeroAddress.kind(), ErrorKind::Validation);
    assert_eq!(SwitchError::BelowMinimum.kind(), ErrorKind::Validation);
    assert_eq!(SwitchError::FeedNotConfigured.kind(), ErrorKind::NotFound);
    assert_eq!(SwitchError::NoRouteAvailable.kind(), ErrorKind::NotFound);
    assert_eq!(SwitchError::AlreadyInitialized.kind(), ErrorKind::State);
    assert_eq!(SwitchError::AdapterExists.kind(), ErrorKind::State);
    assert!(!SwitchError::NotOwner.message().is_empty());
}
