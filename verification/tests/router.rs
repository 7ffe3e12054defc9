use settlement_switch::address::Address;
use settlement_switch::adapters::across::AcrossBridgeAdapter;
use settlement_switch::adapters::mock::MockBridgeAdapter;
use settlement_switch::adapters::stargate::StargateAdapter;
use settlement_switch::adapters::BridgeAdapter;
use settlement_switch::error::SwitchError;
use settlement_switch::price_oracle::PriceOracle;
use settlement_switch::router::{RouterEvent, StablecoinRouter, TransferRequest};

fn addr(tag: u8) -> Address {
    Address::from_bytes([tag; 20])
}

const ADMIN: u8 = 1;
const TOKEN: u8 = 2;
const RECIPIENT: u8 = 3;
const FEED: u8 = 4;
const ID_A: u8 = 10;
const ID_B: u8 = 11;
const ID_C: u8 = 12;
const CHAIN_TO: u64 = 42161;

/// A router with a configured oracle (gas price 50 gwei on `CHAIN_TO`,
/// native and token feeds set) that supports `TOKEN`.
fn configured_router() -> StablecoinRouter {
    let admin = addr(ADMIN);
    let mut oracle = PriceOracle::new(admin);
    oracle.set_gas_price(admin, CHAIN_TO, 50_000_000_000).unwrap();
    oracle.set_native_price_feed(admin, CHAIN_TO, addr(FEED)).unwrap();
    oracle.set_token_price_feed(admin, addr(TOKEN), addr(FEED)).unwrap();
    let mut router = StablecoinRouter::new();
    router.initialize(admin, Some(oracle)).unwrap();
    router.add_supported_token(admin, addr(TOKEN)).unwrap();
    router
}

fn flat_fee_provider() -> BridgeAdapter {
    let admin = addr(ADMIN);
    let mut mock = MockBridgeAdapter::new(admin);
    mock.add_supported_token(admin, addr(TOKEN)).unwrap();
    BridgeAdapter::Mock(mock)
}

fn pool_provider() -> BridgeAdapter {
    let admin = addr(ADMIN);
    let mut stargate = StargateAdapter::new(admin, addr(8));
    stargate.add_supported_token(admin, addr(TOKEN), 13, 0).unwrap();
    BridgeAdapter::Stargate(stargate)
}

fn request(amount: u128) -> TransferRequest {
    TransferRequest {
        from_chain: 1,
        to_chain: CHAIN_TO,
        token: addr(TOKEN),
        amount,
        recipient: addr(RECIPIENT),
    }
}

#[test]
fn initialize_runs_exactly_once() {
    let admin = addr(ADMIN);
    let mut router = StablecoinRouter::new();
    assert_eq!(
        router.initialize(admin, None),
        Err(SwitchError::InvalidOracle)
    );
    router.initialize(admin, Some(PriceOracle::new(admin))).unwrap();
    assert_eq!(
        router.initialize(admin, Some(PriceOracle::new(admin))),
        Err(SwitchError::AlreadyInitialized)
    );
}

#[test]
fn uninitialized_router_authorizes_nobody() {
    let mut router = StablecoinRouter::new();
    assert_eq!(
        router.add_supported_token(Address::zero(), addr(TOKEN)),
        Err(SwitchError::NotOwner)
    );
    assert_eq!(
        router.add_bridge_adapter(Address::zero(), addr(ID_A), flat_fee_provider()),
        Err(SwitchError::NotOwner)
    );
}

#[test]
fn admission_gate_rejects_null_and_inactive_providers() {
    let admin = addr(ADMIN);
    let mut router = configured_router();

    // Null provider id.
    assert_eq!(
        router.add_bridge_adapter(admin, Address::zero(), flat_fee_provider()),
        Err(SwitchError::ZeroAddress)
    );
    assert_eq!(router.get_adapter_count(), 0);

    // Provider that describes itself as inactive.
    let mut mock = MockBridgeAdapter::new(admin);
    mock.add_supported_token(admin, addr(TOKEN)).unwrap();
    mock.set_active(admin, false).unwrap();
    assert_eq!(
        router.add_bridge_adapter(admin, addr(ID_A), BridgeAdapter::Mock(mock)),
        Err(SwitchError::ProviderUnsupported)
    );
    assert_eq!(router.get_adapter_count(), 0);

    // Stranger.
    assert_eq!(
        router.add_bridge_adapter(addr(9), addr(ID_A), flat_fee_provider()),
        Err(SwitchError::NotOwner)
    );

    // Duplicate admission.
    router.add_bridge_adapter(admin, addr(ID_A), flat_fee_provider()).unwrap();
    assert_eq!(
        router.add_bridge_adapter(admin, addr(ID_A), flat_fee_provider()),
        Err(SwitchError::AdapterExists)
    );
    assert_eq!(router.get_adapter_count(), 1);
}

#[test]
fn removal_keeps_survivor_order() {
    let admin = addr(ADMIN);
    let mut router = configured_router();
    router.add_bridge_adapter(admin, addr(ID_A), flat_fee_provider()).unwrap();
    router.add_bridge_adapter(admin, addr(ID_B), pool_provider()).unwrap();
    router.add_bridge_adapter(admin, addr(ID_C), flat_fee_provider()).unwrap();

    assert_eq!(
        router.remove_bridge_adapter(admin, addr(99)),
        Err(SwitchError::AdapterNotFound)
    );
    router.remove_bridge_adapter(admin, addr(ID_B)).unwrap();
    assert_eq!(router.get_adapter_count(), 2);
    assert_eq!(router.bridge_adapters[0].0, addr(ID_A));
    assert_eq!(router.bridge_adapters[1].0, addr(ID_C));
    assert!(router.get_bridge_adapter(addr(ID_B)).is_none());
    assert!(router.get_bridge_adapter(addr(ID_A)).is_some());

    // Removing again fails: the membership flag is cleared.
    assert_eq!(
        router.remove_bridge_adapter(admin, addr(ID_B)),
        Err(SwitchError::AdapterNotFound)
    );

    // A removed provider can be admitted anew.
    router.add_bridge_adapter(admin, addr(ID_B), pool_provider()).unwrap();
    assert_eq!(router.get_adapter_count(), 3);
    assert_eq!(router.bridge_adapters[2].0, addr(ID_B));

    // Each admission and removal left a notification, in order.
    assert_eq!(router.events.len(), 5);
    match router.events[3] {
        RouterEvent::AdapterRemoved { adapter } => assert_eq!(adapter, addr(ID_B)),
        _ => panic!("expected a removal notification"),
    }
    match router.events[4] {
        RouterEvent::AdapterAdded { adapter } => assert_eq!(adapter, addr(ID_B)),
        _ => panic!("expected an admission notification"),
    }
}

#[test]
fn find_best_route_rejects_unsupported_asset() {
    let router = configured_router();
    let mut req = request(1_000_000);
    req.token = addr(77);
    assert_eq!(
        router.find_best_route(req).unwrap_err(),
        SwitchError::UnsupportedAsset
    );
}

#[test]
fn find_best_route_needs_a_provider() {
    let router = configured_router();
    assert_eq!(
        router.find_best_route(request(1_000_000)).unwrap_err(),
        SwitchError::NoRouteAvailable
    );
}

#[test]
fn find_best_route_propagates_oracle_errors() {
    let admin = addr(ADMIN);
    let mut oracle = PriceOracle::new(admin);
    oracle.set_token_price_feed(admin, addr(TOKEN), addr(FEED)).unwrap();
    let mut router = StablecoinRouter::new();
    router.initialize(admin, Some(oracle)).unwrap();
    router.add_supported_token(admin, addr(TOKEN)).unwrap();
    router.add_bridge_adapter(admin, addr(ID_A), flat_fee_provider()).unwrap();

    assert_eq!(
        router.find_best_route(request(1_000_000)).unwrap_err(),
        SwitchError::GasPriceNotConfigured
    );
    match &mut router.oracle {
        Some(o) => o.set_gas_price(admin, CHAIN_TO, 50_000_000_000).unwrap(),
        None => unreachable!(),
    }
    assert_eq!(
        router.find_best_route(request(1_000_000)).unwrap_err(),
        SwitchError::FeedNotConfigured
    );
}

#[test]
fn best_route_compares_normalized_gas_cost_not_fee() {
    // Provider A: flat fee (1,000 on this amount), 100,000 gas.
    // Provider B: pool fee (600 on this amount, the cheaper fee), 250,000
    // gas. Gas cost dominates the comparison, so A must win.
    let admin = addr(ADMIN);
    let mut router = configured_router();
    router.add_bridge_adapter(admin, addr(ID_A), flat_fee_provider()).unwrap();
    router.add_bridge_adapter(admin, addr(ID_B), pool_provider()).unwrap();

    let info = router.find_best_route(request(1_000_000)).unwrap();
    assert_eq!(info.bridge_adapter, addr(ID_A));
    assert_eq!(info.bridge_name, "Mock Bridge");
    // 100,000 * 50e9 * 1e8 / 1e18 at 8 decimals.
    assert_eq!(info.estimated_gas_cost, 500_000);
    assert_eq!(info.total_cost_usd, 500_000);
    assert_eq!(info.bridge_fee, 1_000);
    assert_eq!(info.amount_out, 999_000);
    assert!(info.available);
}

#[test]
fn best_route_tie_keeps_earliest_registered() {
    let admin = addr(ADMIN);
    let mut router = configured_router();
    // Two flat-fee providers: identical gas estimates, so their
    // normalized costs tie and the earliest registered must win.
    router.add_bridge_adapter(admin, addr(ID_B), flat_fee_provider()).unwrap();
    router.add_bridge_adapter(admin, addr(ID_A), flat_fee_provider()).unwrap();

    let info = router.find_best_route(request(1_000_000)).unwrap();
    assert_eq!(info.bridge_adapter, addr(ID_B));
}

#[test]
fn find_best_route_skips_providers_without_a_quote() {
    let admin = addr(ADMIN);
    let mut router = configured_router();
    // The cheaper-gas provider does not admit the asset; the search must
    // skip it rather than fail.
    let other = MockBridgeAdapter::new(admin);
    router.add_bridge_adapter(admin, addr(ID_A), BridgeAdapter::Mock(other)).unwrap();
    router.add_bridge_adapter(admin, addr(ID_B), pool_provider()).unwrap();

    let info = router.find_best_route(request(1_000_000)).unwrap();
    assert_eq!(info.bridge_adapter, addr(ID_B));
    assert_eq!(info.bridge_name, "Stargate");
}

#[test]
fn get_routes_lists_candidates_in_registration_order() {
    let admin = addr(ADMIN);
    let mut router = configured_router();
    router.add_bridge_adapter(admin, addr(ID_A), flat_fee_provider()).unwrap();
    router.add_bridge_adapter(admin, addr(ID_B), pool_provider()).unwrap();

    assert_eq!(
        router.get_routes(request(0)).unwrap_err(),
        SwitchError::ZeroAmount
    );
    let routes = router.get_routes(request(1_000_000)).unwrap();
    assert_eq!(routes.len(), 2);
    assert_eq!(routes[0].bridge_adapter, addr(ID_A));
    assert_eq!(routes[0].total_cost_usd, 500_000);
    assert_eq!(routes[1].bridge_adapter, addr(ID_B));
    assert_eq!(routes[1].total_cost_usd, 1_250_000);
}

#[test]
fn execute_transfer_updates_statistics() {
    let admin = addr(ADMIN);
    let mut router = configured_router();
    router.add_bridge_adapter(admin, addr(ID_A), flat_fee_provider()).unwrap();

    // Asset at $1.00 (8 decimals): 10^12 units scale to 100 USD units.
    let amount: u128 = 1_000_000_000_000;
    assert_eq!(router.execute_transfer(request(amount)), Ok(true));
    assert_eq!(router.get_total_transfers(), 1);
    assert_eq!(router.total_volume_usd, 100);

    assert_eq!(router.execute_transfer(request(amount)), Ok(true));
    assert_eq!(router.get_total_transfers(), 2);
    assert_eq!(router.total_volume_usd, 200);
}

#[test]
fn failed_transfer_leaves_statistics_untouched() {
    // The winning provider quotes but cannot execute: its transport
    // endpoint is unconfigured. The failure must propagate and the
    // statistics must not move.
    let admin = addr(ADMIN);
    let mut router = configured_router();
    let mut across = AcrossBridgeAdapter::new(admin, Address::zero());
    across.add_supported_token(admin, addr(TOKEN), 0).unwrap();
    router.add_bridge_adapter(admin, addr(ID_A), BridgeAdapter::Across(across)).unwrap();

    assert_eq!(
        router.execute_transfer(request(1_000_000)),
        Err(SwitchError::EndpointNotSet)
    );
    assert_eq!(router.get_total_transfers(), 0);
    assert_eq!(router.total_volume_usd, 0);
}

#[test]
fn execution_without_a_token_feed_records_nothing() {
    // Gas normalization is configured but no feed is registered for the
    // asset, so the volume cannot be priced: the call fails and the
    // statistics stay untouched.
    let admin = addr(ADMIN);
    let mut oracle = PriceOracle::new(admin);
    oracle.set_gas_price(admin, CHAIN_TO, 50_000_000_000).unwrap();
    oracle.set_native_price_feed(admin, CHAIN_TO, addr(FEED)).unwrap();
    let mut router = StablecoinRouter::new();
    router.initialize(admin, Some(oracle)).unwrap();
    router.add_supported_token(admin, addr(TOKEN)).unwrap();
    router.add_bridge_adapter(admin, addr(ID_A), flat_fee_provider()).unwrap();

    assert_eq!(
        router.execute_transfer(request(1_000_000)),
        Err(SwitchError::FeedNotConfigured)
    );
    assert_eq!(router.get_total_transfers(), 0);
    assert_eq!(router.total_volume_usd, 0);
}

#[test]
fn accessors_reflect_the_state() {
    let admin = addr(ADMIN);
    let uninitialized = StablecoinRouter::new();
    assert!(uninitialized.price_oracle().is_none());

    let mut router = configured_router();
    assert!(router.price_oracle().is_some());
    assert!(router.get_bridge_adapter(addr(ID_A)).is_none());
    router.add_bridge_adapter(admin, addr(ID_A), flat_fee_provider()).unwrap();
    match router.get_bridge_adapter(addr(ID_A)) {
        Some(BridgeAdapter::Mock(m)) => assert!(m.active),
        _ => panic!("expected the admitted flat-fee provider"),
    }
}

#[test]
fn execute_best_route_validates_the_order() {
    let admin = addr(ADMIN);
    let mut router = configured_router();
    router.add_bridge_adapter(admin, addr(ID_A), flat_fee_provider()).unwrap();

    assert_eq!(
        router.execute_best_route(CHAIN_TO, addr(TOKEN), 0, addr(RECIPIENT)),
        Err(SwitchError::ZeroAmount)
    );
    assert_eq!(
        router.execute_best_route(CHAIN_TO, addr(TOKEN), 5, Address::zero()),
        Err(SwitchError::ZeroAddress)
    );
    assert_eq!(router.get_total_transfers(), 0);
    assert_eq!(
        router.execute_best_route(CHAIN_TO, addr(TOKEN), 1_000_000, addr(RECIPIENT)),
        Ok(true)
    );
    assert_eq!(router.get_total_transfers(), 1);
}
