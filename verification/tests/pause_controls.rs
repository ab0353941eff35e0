use escrow::{Address, Error, Escrow, ReleaseAuthorization};

fn setup_initialized() -> (Escrow, Address) {
    let admin = Address::account(900);
    let mut escrow = Escrow::new();
    assert_eq!(escrow.initialize(admin), Ok(()));
    (escrow, admin)
}

/// Raises the emergency flag and lowers the pause flag again, so that the
/// gate reaches its emergency check.
fn set_emergency_only(escrow: &mut Escrow) {
    escrow.activate_emergency_pause().unwrap();
    escrow.paused = false;
}

#[test]
fn initialize_only_once_fails() {
    let (mut escrow, admin) = setup_initialized();
    assert_eq!(escrow.initialize(admin), Err(Error::AlreadyInitialized));
}

#[test]
fn pause_then_unpause_toggles_state() {
    let (mut escrow, _admin) = setup_initialized();
    assert!(!escrow.is_paused());
    assert!(escrow.pause().is_ok());
    assert!(escrow.is_paused());
    assert!(escrow.unpause().is_ok());
    assert!(!escrow.is_paused());
}

#[test]
fn pause_requires_initialization() {
    let mut escrow = Escrow::new();
    assert_eq!(escrow.pause(), Err(Error::NotInitialized));
}

#[test]
fn pause_blocks_create_contract() {
    let (mut escrow, _admin) = setup_initialized();
    escrow.pause().unwrap();
    let a = Address::account(1);
    let b = Address::account(2);
    assert_eq!(
        escrow.create_contract(a, b, None, vec![50_i128], ReleaseAuthorization::ClientOnly),
        Err(Error::ContractPaused)
    );
}

#[test]
fn emergency_blocks_create_contract() {
    let (mut escrow, _admin) = setup_initialized();
    set_emergency_only(&mut escrow);
    let a = Address::account(1);
    let b = Address::account(2);
    assert_eq!(
        escrow.create_contract(a, b, None, vec![50_i128], ReleaseAuthorization::ClientOnly),
        Err(Error::EmergencyActive)
    );
}

#[test]
fn unpause_restores_create_contract() {
    let (mut escrow, _admin) = setup_initialized();
    escrow.pause().unwrap();
    escrow.unpause().unwrap();
    let a = Address::account(1);
    let b = Address::account(2);
    let id = escrow
        .create_contract(a, b, None, vec![50_i128], ReleaseAuthorization::ClientOnly)
        .unwrap();
    assert_eq!(id, 1);
}

#[test]
fn unpause_is_refused_during_emergency() {
    let (mut escrow, _admin) = setup_initialized();
    escrow.activate_emergency_pause().unwrap();
    assert_eq!(escrow.unpause(), Err(Error::EmergencyActive));
    assert!(escrow.is_paused());
    escrow.resolve_emergency().unwrap();
    assert!(!escrow.is_paused());
    assert!(!escrow.is_emergency());
}
