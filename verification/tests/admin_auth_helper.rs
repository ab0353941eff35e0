use escrow::{Address, Error, Escrow, Ledger};

fn setup() -> (Escrow, Address) {
    let admin = Address::account(900);
    let mut escrow = Escrow::new();
    assert!(escrow.initialize(admin).is_ok(), "initialize must succeed");
    (escrow, admin)
}

fn setup_uninitialized() -> Escrow {
    Escrow::new()
}

#[test]
fn pause_before_initialize_panics_not_initialized() {
    let mut escrow = setup_uninitialized();
    assert_eq!(escrow.pause(), Err(Error::NotInitialized));
}

#[test]
fn unpause_before_initialize_panics_not_initialized() {
    let mut escrow = setup_uninitialized();
    assert_eq!(escrow.unpause(), Err(Error::NotInitialized));
}

#[test]
fn activate_emergency_pause_before_initialize_panics_not_initialized() {
    let mut escrow = setup_uninitialized();
    assert_eq!(escrow.activate_emergency_pause(), Err(Error::NotInitialized));
}

#[test]
fn resolve_emergency_before_initialize_panics_not_initialized() {
    let mut escrow = setup_uninitialized();
    assert_eq!(escrow.resolve_emergency(), Err(Error::NotInitialized));
}

#[test]
fn pause_succeeds_with_admin_auth() {
    let (mut escrow, _admin) = setup();
    assert!(escrow.pause().is_ok(), "pause must succeed");
    assert!(escrow.is_paused(), "contract must be in paused state");
}

#[test]
fn unpause_succeeds_after_pause() {
    let (mut escrow, _admin) = setup();
    escrow.pause().unwrap();
    assert!(escrow.unpause().is_ok(), "unpause must succeed");
    assert!(!escrow.is_paused(), "contract must be unpaused");
}

#[test]
fn activate_emergency_pause_succeeds_with_admin_auth() {
    let (mut escrow, _admin) = setup();
    assert!(escrow.activate_emergency_pause().is_ok());
    assert!(escrow.is_paused());
    assert!(escrow.is_emergency());
}

#[test]
fn resolve_emergency_succeeds_with_admin_auth() {
    let (mut escrow, _admin) = setup();
    escrow.activate_emergency_pause().unwrap();
    assert!(escrow.resolve_emergency().is_ok());
    assert!(!escrow.is_emergency());
    assert!(!escrow.is_paused());
}

#[test]
fn pending_admin_proposal_round_trip() {
    let (mut escrow, _admin) = setup();
    let proposed_admin = Address::account(901);
    let anchor = Ledger { sequence: 4_242, timestamp: 77 };
    assert!(escrow.propose_governance_admin(proposed_admin, anchor).is_ok());
    assert_eq!(escrow.get_pending_governance_admin(), Some(proposed_admin));
    assert_eq!(escrow.get_pending_governance_admin_proposed_at(), Some(anchor.sequence));
}

#[test]
fn pending_admin_returns_none_when_absent() {
    let (escrow, _admin) = setup();
    assert_eq!(escrow.get_pending_governance_admin(), None);
    assert_eq!(escrow.get_pending_governance_admin_proposed_at(), None);
}

#[test]
fn emergency_round_trip_preserves_flag_consistency() {
    let (mut escrow, _admin) = setup();
    assert!(!escrow.is_paused());
    assert!(!escrow.is_emergency());
    escrow.activate_emergency_pause().unwrap();
    assert!(escrow.is_paused());
    assert!(escrow.is_emergency());
    escrow.resolve_emergency().unwrap();
    assert!(!escrow.is_paused());
    assert!(!escrow.is_emergency());
}

#[test]
fn pause_unpause_does_not_affect_emergency_flag() {
    let (mut escrow, _admin) = setup();
    escrow.pause().unwrap();
    assert!(!escrow.is_emergency(), "pause must not set emergency flag");
    escrow.unpause().unwrap();
    assert!(!escrow.is_emergency(), "unpause must not set emergency flag");
}

#[test]
fn admin_and_settlement_token_are_bound_by_the_admin() {
    let (mut escrow, admin) = setup();
    assert_eq!(escrow.get_admin(), Some(admin));
    assert_eq!(escrow.get_settlement_token(), None);
    assert_eq!(escrow.set_settlement_token(Address::account(5), Address::contract(7)), Err(Error::UnauthorizedRole));
    assert_eq!(escrow.set_settlement_token(admin, Address::contract(7)), Ok(()));
    assert_eq!(escrow.get_settlement_token(), Some(Address::contract(7)));
    let mut fresh = Escrow::new();
    assert_eq!(fresh.set_settlement_token(admin, Address::contract(7)), Err(Error::NotInitialized));
}
