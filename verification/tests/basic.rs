use settlement_switch::address::Address;
use settlement_switch::adapters::mock::MockBridgeAdapter;

#[test]
fn test_settlement_switch_initialization() {
    let oracle = Address::from_bytes([1u8; 20]);
    assert!(oracle != Address::zero());
}

#[test]
fn test_basic_types() {
    let addr = Address::zero();
    assert_eq!(addr, Address::zero());

    let amount: u128 = 1000000;
    assert_eq!(amount, 1000000);
}

#[test]
fn test_address_validation() {
    let zero_addr = Address::zero();
    let valid_addr = Address::from_bytes([1u8; 20]);

    assert_eq!(zero_addr, Address::zero());
    assert_ne!(valid_addr, Address::zero());
}

#[test]
fn test_amount_calculations() {
    let owner = Address::from_bytes([9u8; 20]);
    let token = Address::from_bytes([2u8; 20]);
    let mut adapter = MockBridgeAdapter::new(owner);
    adapter.add_supported_token(owner, token).unwrap();

    let amount: u128 = 1000000;
    let route = adapter.get_route(1, 2, token, amount).unwrap();
    assert_eq!(route.fee, 1000);

    let amount_out = amount - route.fee;
    assert_eq!(amount_out, 999000);
}
