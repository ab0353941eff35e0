use escrow::{Address, Error, Escrow};

fn setup() -> Escrow {
    Escrow::new()
}

#[test]
fn fresh_contract_returns_safe_defaults() {
    let escrow = setup();
    let info = escrow.get_mainnet_readiness_info();
    assert!(!info.initialized, "initialized should be false on a fresh contract");
    assert!(!info.governed_params_set, "governed_params_set should be false on a fresh contract");
    assert!(!info.emergency_controls_enabled, "emergency_controls_enabled should be false on a fresh contract");
}

#[test]
fn initialize_sets_initialized_to_true() {
    let mut escrow = setup();
    escrow.initialize(Address::account(900)).unwrap();
    assert!(escrow.get_mainnet_readiness_info().initialized, "initialized must be true after initialize()");
}

#[test]
fn set_governed_params_sets_governed_params() {
    let mut escrow = setup();
    let admin = Address::account(900);
    escrow.initialize(admin).unwrap();
    assert!(escrow.set_governed_params(admin, 1000, 500_000_000_000).is_ok());
    assert!(escrow.get_mainnet_readiness_info().governed_params_set);
    let params = escrow.get_governed_parameters().unwrap();
    assert_eq!(params.protocol_fee_bps, 1000);
    assert_eq!(params.max_escrow_total_stroops, 500_000_000_000_i128);
}

#[test]
fn unauthorized_set_governed_params_does_not_set_flag() {
    let mut escrow = setup();
    let admin = Address::account(900);
    let fake_admin = Address::account(901);
    escrow.initialize(admin).unwrap();
    assert_eq!(escrow.set_governed_params(fake_admin, 1000, 500_000_000_000), Err(Error::UnauthorizedRole));
    assert!(!escrow.get_mainnet_readiness_info().governed_params_set);
}

#[test]
fn invalid_set_governed_params_does_not_set_flag() {
    let mut escrow = setup();
    let admin = Address::account(900);
    escrow.initialize(admin).unwrap();
    assert_eq!(escrow.set_governed_params(admin, 20_000, 500_000_000_000), Err(Error::InvalidProtocolParameters));
    assert!(!escrow.get_mainnet_readiness_info().governed_params_set);
}

#[test]
fn activate_emergency_pause_sets_emergency_controls_enabled() {
    let mut escrow = setup();
    escrow.initialize(Address::account(900)).unwrap();
    escrow.activate_emergency_pause().unwrap();
    assert!(escrow.get_mainnet_readiness_info().emergency_controls_enabled);
}

#[test]
fn resolve_emergency_sets_emergency_controls_enabled() {
    let mut escrow = setup();
    escrow.initialize(Address::account(900)).unwrap();
    escrow.resolve_emergency().unwrap();
    assert!(escrow.get_mainnet_readiness_info().emergency_controls_enabled);
}

#[test]
fn get_mainnet_readiness_info_is_idempotent() {
    let mut escrow = setup();
    let admin = Address::account(900);
    escrow.initialize(admin).unwrap();
    escrow.set_governed_params(admin, 1000, 500_000_000_000).unwrap();
    let first = escrow.get_mainnet_readiness_info();
    let second = escrow.get_mainnet_readiness_info();
    let third = escrow.get_mainnet_readiness_info();
    assert_eq!(first, second, "repeated calls must return identical results");
    assert_eq!(second, third, "repeated calls must return identical results");
}

#[test]
fn missing_storage_returns_safe_defaults() {
    let escrow = setup();
    let info = escrow.get_mainnet_readiness_info();
    assert!(!info.initialized);
    assert!(!info.governed_params_set);
    assert!(!info.emergency_controls_enabled);
}

#[test]
#[should_panic]
fn double_initialize_panics() {
    let mut escrow = setup();
    let admin = Address::account(900);
    escrow.initialize(admin).unwrap();
    escrow.initialize(admin).unwrap();
}

#[test]
fn failed_lifecycle_does_not_update_checklist() {
    let escrow = setup();
    assert!(!escrow.get_mainnet_readiness_info().initialized);
}

#[test]
fn test_operator_workflow_transitions() {
    let mut escrow = setup();
    let admin = Address::account(900);

    let info = escrow.get_mainnet_readiness_info();
    assert!(!info.initialized);
    assert!(!info.governed_params_set);
    assert!(!info.emergency_controls_enabled);
    assert!(!escrow.is_paused());
    assert!(!escrow.is_emergency());

    escrow.initialize(admin).unwrap();
    let info = escrow.get_mainnet_readiness_info();
    assert!(info.initialized);
    assert!(!info.governed_params_set);
    assert!(!info.emergency_controls_enabled);

    assert!(escrow.set_governed_params(admin, 1000, 500_000_000_000).is_ok());
    let info = escrow.get_mainnet_readiness_info();
    assert!(info.initialized);
    assert!(info.governed_params_set);
    assert!(!info.emergency_controls_enabled);

    escrow.activate_emergency_pause().unwrap();
    let info = escrow.get_mainnet_readiness_info();
    assert!(info.initialized);
    assert!(info.governed_params_set);
    assert!(info.emergency_controls_enabled);
    assert!(escrow.is_paused(), "Contract should be paused after activating emergency pause");
    assert!(escrow.is_emergency(), "Contract should be in emergency mode");

    escrow.resolve_emergency().unwrap();
    let info = escrow.get_mainnet_readiness_info();
    assert!(info.initialized);
    assert!(info.governed_params_set);
    assert!(info.emergency_controls_enabled);
    assert!(!escrow.is_paused(), "Contract should be unpaused after resolving emergency");
    assert!(!escrow.is_emergency(), "Contract should not be in emergency mode");
}

#[test]
fn governed_cap_limits_new_contracts() {
    let mut escrow = setup();
    let admin = Address::account(900);
    escrow.initialize(admin).unwrap();
    escrow.set_governed_params(admin, 0, 1_000).unwrap();
    assert_eq!(
        escrow.create_contract(
            Address::account(1),
            Address::account(2),
            None,
            vec![600, 401],
            escrow::ReleaseAuthorization::ClientOnly
        ),
        Err(Error::EscrowCapExceeded)
    );
    assert!(escrow
        .create_contract(Address::account(1), Address::account(2), None, vec![600, 400], escrow::ReleaseAuthorization::ClientOnly)
        .is_ok());
}
