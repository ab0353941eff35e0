use escrow::{Address, Error, Escrow, Ledger, ADMIN_ROTATION_MIN_DELAY_LEDGERS};

const START: Ledger = Ledger { sequence: 100, timestamp: 1_000 };

fn advance_ledgers(ledger: Ledger, delta: u32) -> Ledger {
    Ledger { sequence: ledger.sequence + delta, timestamp: ledger.timestamp + (delta as u64) * 5 }
}

fn register_client() -> Escrow {
    Escrow::new()
}

#[test]
fn accept_succeeds_after_min_delay_ledgers_elapse() {
    let mut escrow = register_client();
    let admin = Address::account(900);
    escrow.initialize(admin).unwrap();
    let next_admin = Address::account(901);
    escrow.propose_governance_admin(next_admin, START).unwrap();
    let later = advance_ledgers(START, ADMIN_ROTATION_MIN_DELAY_LEDGERS);
    assert!(escrow.accept_governance_admin(later).is_ok());
    assert_eq!(escrow.get_governance_admin(), Some(next_admin));
    assert_eq!(escrow.get_pending_governance_admin(), None);
}

#[test]
fn accept_rejected_immediately_after_proposal() {
    let mut escrow = register_client();
    escrow.initialize(Address::account(900)).unwrap();
    escrow.propose_governance_admin(Address::account(901), START).unwrap();
    assert_eq!(escrow.accept_governance_admin(START), Err(Error::TimelockNotElapsed));
}

#[test]
fn accept_rejected_one_ledger_before_min_delay() {
    let mut escrow = register_client();
    escrow.initialize(Address::account(900)).unwrap();
    escrow.propose_governance_admin(Address::account(901), START).unwrap();
    let later = advance_ledgers(START, ADMIN_ROTATION_MIN_DELAY_LEDGERS - 1);
    assert_eq!(escrow.accept_governance_admin(later), Err(Error::TimelockNotElapsed));
}

#[test]
fn accept_without_proposal_is_refused() {
    let mut escrow = register_client();
    escrow.initialize(Address::account(900)).unwrap();
    assert_eq!(escrow.accept_governance_admin(START), Err(Error::InvalidState));
    assert_eq!(escrow.get_pending_governance_admin_proposed_at(), None);
}
