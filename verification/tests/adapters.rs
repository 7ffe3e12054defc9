use settlement_switch::address::Address;
use settlement_switch::adapters::across::AcrossBridgeAdapter;
use settlement_switch::adapters::hop::HopBridgeAdapter;
use settlement_switch::adapters::mock::MockBridgeAdapter;
use settlement_switch::adapters::stargate::StargateAdapter;
use settlement_switch::adapters::BridgeAdapter;
use settlement_switch::error::SwitchError;

fn addr(tag: u8) -> Address {
    Address::from_bytes([tag; 20])
}

#[test]
fn mock_adapter_flat_fee_quote() {
    let owner = addr(1);
    let token = addr(2);
    let mut a = MockBridgeAdapter::new(owner);
    assert_eq!(
        a.get_route(1, 2, token, 1_000_000).unwrap_err(),
        SwitchError::UnsupportedAsset
    );
    a.add_supported_token(owner, token).unwrap();
    let route = a.get_route(1, 2, token, 1_000_000).unwrap();
    assert_eq!(route.bridge_name, "Mock Bridge");
    assert_eq!(route.estimated_time, 300);
    assert_eq!(route.estimated_gas, 100_000);
    assert_eq!(route.fee, 1_000);
    assert!(route.available);
}

#[test]
fn mock_adapter_transfer_validations() {
    let owner = addr(1);
    let token = addr(2);
    let recipient = addr(3);
    let mut a = MockBridgeAdapter::new(owner);
    a.add_supported_token(owner, token).unwrap();
    assert_eq!(
        a.bridge_tokens(2, token, 0, recipient, Vec::new()),
        Err(SwitchError::ZeroAmount)
    );
    assert_eq!(
        a.bridge_tokens(2, token, 5, Address::zero(), Vec::new()),
        Err(SwitchError::ZeroAddress)
    );
    assert_eq!(a.bridge_tokens(2, token, 5, recipient, Vec::new()), Ok(()));
}

#[test]
fn mock_adapter_admission_is_gated() {
    let owner = addr(1);
    let mut a = MockBridgeAdapter::new(owner);
    assert_eq!(
        a.add_supported_token(addr(9), addr(2)),
        Err(SwitchError::NotOwner)
    );
    assert_eq!(
        a.add_supported_token(owner, Address::zero()),
        Err(SwitchError::ZeroAddress)
    );
    assert_eq!(a.set_active(addr(9), false), Err(SwitchError::NotOwner));
    a.set_active(owner, false).unwrap();
    let (name, active) = a.get_bridge_info();
    assert_eq!(name, "Mock Bridge");
    assert!(!active);
}

#[test]
fn across_adapter_proportional_fee_and_cap() {
    let owner = addr(1);
    let token = addr(2);
    let mut a = AcrossBridgeAdapter::new(owner, addr(8));
    a.add_supported_token(owner, token, 1_000).unwrap();

    // Default relayer fee: 15 basis points.
    let route = a.get_route(1, 2, token, 1_000_000).unwrap();
    assert_eq!(route.bridge_name, "Across Protocol");
    assert_eq!(route.estimated_time, 180);
    assert_eq!(route.estimated_gas, 120_000);
    assert_eq!(route.fee, 1_500);

    assert_eq!(
        a.get_route(1, 2, token, 500).unwrap_err(),
        SwitchError::BelowMinimum
    );
    assert_eq!(a.set_relayer_fee(owner, 1_001), Err(SwitchError::FeeTooHigh));
    a.set_relayer_fee(owner, 100).unwrap();
    let route = a.get_route(1, 2, token, 1_000_000).unwrap();
    assert_eq!(route.fee, 10_000);
}

#[test]
fn across_adapter_transfer_needs_spoke_pool() {
    let owner = addr(1);
    let token = addr(2);
    let mut a = AcrossBridgeAdapter::new(owner, Address::zero());
    a.add_supported_token(owner, token, 0).unwrap();
    assert_eq!(
        a.bridge_tokens(2, token, 1_000, addr(3), Vec::new()),
        Err(SwitchError::EndpointNotSet)
    );
    assert_eq!(
        a.set_spoke_pool(owner, Address::zero()),
        Err(SwitchError::ZeroAddress)
    );
    a.set_spoke_pool(owner, addr(8)).unwrap();
    assert_eq!(a.bridge_tokens(2, token, 1_000, addr(3), Vec::new()), Ok(()));
}

#[test]
fn hop_adapter_bonder_plus_lp_fee() {
    let owner = addr(1);
    let token = addr(2);
    let mut a = HopBridgeAdapter::new(owner);
    assert_eq!(
        a.add_supported_token(owner, token, Address::zero(), addr(5), 0),
        Err(SwitchError::ZeroAddress)
    );
    a.add_supported_token(owner, token, addr(4), addr(5), 0).unwrap();
    assert_eq!(a.get_hop_bridge(token), Ok(addr(4)));
    assert_eq!(a.get_hop_amm(token), Ok(addr(5)));
    assert_eq!(a.get_hop_bridge(addr(9)), Err(SwitchError::EndpointNotSet));

    // 10 bps bonder fee + 4 bps liquidity fee on 1,000,000.
    let route = a.get_route(1, 2, token, 1_000_000).unwrap();
    assert_eq!(route.bridge_name, "Hop Protocol");
    assert_eq!(route.estimated_time, 300);
    assert_eq!(route.estimated_gas, 150_000);
    assert_eq!(route.fee, 1_400);

    assert_eq!(a.set_bonder_fee(owner, 2_000), Err(SwitchError::FeeTooHigh));
    a.set_bonder_fee(owner, 100).unwrap();
    let route = a.get_route(1, 2, token, 1_000_000).unwrap();
    assert_eq!(route.fee, 10_400);
    assert_eq!(a.bridge_tokens(2, token, 1_000, addr(3), Vec::new()), Ok(()));
}

#[test]
fn stargate_adapter_pool_fee() {
    let owner = addr(1);
    let token = addr(2);
    let mut a = StargateAdapter::new(owner, addr(8));
    a.add_supported_token(owner, token, 13, 1_000).unwrap();

    let route = a.get_route(1, 2, token, 1_000_000).unwrap();
    assert_eq!(route.bridge_name, "Stargate");
    assert_eq!(route.estimated_time, 900);
    assert_eq!(route.estimated_gas, 250_000);
    assert_eq!(route.fee, 600);

    assert_eq!(
        a.get_route(1, 2, token, 999).unwrap_err(),
        SwitchError::BelowMinimum
    );
    assert_eq!(
        a.bridge_tokens(2, token, 999, addr(3), Vec::new()),
        Err(SwitchError::BelowMinimum)
    );
    assert_eq!(
        a.bridge_tokens(2, token, 1_000, addr(3), Vec::new()),
        Ok(())
    );
}

#[test]
fn adapter_enum_dispatches_by_variant() {
    let owner = addr(1);
    let token = addr(2);
    let mut mock = MockBridgeAdapter::new(owner);
    mock.add_supported_token(owner, token).unwrap();
    let adapter = BridgeAdapter::Mock(mock);

    let (name, active) = adapter.get_bridge_info();
    assert_eq!(name, "Mock Bridge");
    assert!(active);
    let route = adapter.get_route(1, 2, token, 2_000).unwrap();
    assert_eq!(route.fee, 2);
    assert_eq!(
        adapter.bridge_tokens(2, addr(9), 5, addr(3), Vec::new()),
        Err(SwitchError::UnsupportedAsset)
    );
}
