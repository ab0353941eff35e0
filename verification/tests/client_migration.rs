#![allow(dead_code)]
use escrow::{Address, Error, Escrow, Ledger, ReleaseAuthorization, PENDING_MIGRATION_TTL_LEDGERS};

const LEDGER: Ledger = Ledger { sequence: 100, timestamp: 1_000 };
const MILESTONE_ONE: i128 = 200_0000000;
const MILESTONE_TWO: i128 = 400_0000000;
const MILESTONE_THREE: i128 = 600_0000000;

fn total_milestone_amount() -> i128 {
    MILESTONE_ONE + MILESTONE_TWO + MILESTONE_THREE
}

fn default_milestones() -> Vec<i128> {
    vec![MILESTONE_ONE, MILESTONE_TWO, MILESTONE_THREE]
}

fn register_client() -> Escrow {
    let admin = Address::account(900);
    let mut escrow = Escrow::new();
    escrow.initialize(admin).unwrap();
    escrow.set_settlement_token(admin, Address::contract(7)).unwrap();
    escrow
}

fn create_contract(escrow: &mut Escrow) -> (Address, Address, u32) {
    let client_addr = Address::account(1);
    let freelancer_addr = Address::account(2);
    let id = escrow
        .create_contract(client_addr, freelancer_addr, None, default_milestones(), ReleaseAuthorization::ClientOnly)
        .unwrap();
    (client_addr, freelancer_addr, id)
}

fn approve_and_release(escrow: &mut Escrow, id: u32, caller: Address, index: u32) {
    escrow.approve_milestone_release(id, caller, index, LEDGER).unwrap();
    escrow.release_milestone(id, caller, index, LEDGER).unwrap();
}

fn complete_contract(escrow: &mut Escrow) -> (Address, Address, u32) {
    let (client_addr, freelancer_addr, id) = create_contract(escrow);
    escrow.deposit_funds(id, client_addr, total_milestone_amount()).unwrap();
    for i in 0..3u32 {
        approve_and_release(escrow, id, client_addr, i);
    }
    (client_addr, freelancer_addr, id)
}

#[test]
fn propose_and_accept_client_migration() {
    let mut escrow = register_client();
    let (client_addr, _freelancer_addr, id) = create_contract(&mut escrow);
    let new_client = Address::account(3);

    assert!(escrow.propose_client_migration(id, client_addr, new_client, LEDGER).is_ok());
    assert!(escrow.has_pending_client_migration(id, LEDGER));

    let pending = escrow.get_pending_client_migration(id, LEDGER).unwrap();
    assert_eq!(pending.current_client, client_addr);
    assert_eq!(pending.proposed_client, new_client);
    assert!(pending.expires_at_ledger > LEDGER.sequence);
    assert_eq!(pending.expires_at_ledger, LEDGER.sequence + PENDING_MIGRATION_TTL_LEDGERS);

    assert!(escrow.accept_client_migration(id, new_client, LEDGER).is_ok());
    let contract = escrow.get_contract(id).unwrap();
    assert_eq!(contract.client, new_client);
    assert!(!escrow.has_pending_client_migration(id, LEDGER));
}

#[test]
fn unauthorized_accept_client_migration_fails() {
    let mut escrow = register_client();
    let (client_addr, _freelancer_addr, id) = create_contract(&mut escrow);
    let new_client = Address::account(3);
    let attacker = Address::account(4);
    assert!(escrow.propose_client_migration(id, client_addr, new_client, LEDGER).is_ok());
    assert_eq!(escrow.accept_client_migration(id, attacker, LEDGER), Err(Error::UnauthorizedRole));
}

#[test]
fn propose_client_migration_rejects_freelancer_address() {
    let mut escrow = register_client();
    let (client_addr, freelancer_addr, id) = create_contract(&mut escrow);
    assert_eq!(
        escrow.propose_client_migration(id, client_addr, freelancer_addr, LEDGER),
        Err(Error::InvalidParticipant)
    );
}

#[test]
fn accept_client_migration_rejects_expired_pending_migration() {
    let mut escrow = register_client();
    let (client_addr, _freelancer_addr, id) = create_contract(&mut escrow);
    let new_client = Address::account(3);
    assert!(escrow.propose_client_migration(id, client_addr, new_client, LEDGER).is_ok());
    let later = Ledger {
        sequence: LEDGER.sequence + PENDING_MIGRATION_TTL_LEDGERS + 1,
        timestamp: LEDGER.timestamp + 10_000,
    };
    assert_eq!(escrow.accept_client_migration(id, new_client, later), Err(Error::InvalidState));
    assert!(!escrow.has_pending_client_migration(id, later));
}

#[test]
fn propose_client_migration_rejects_after_contract_completed() {
    let mut escrow = register_client();
    let (client_addr, _freelancer_addr, id) = complete_contract(&mut escrow);
    let new_client = Address::account(3);
    assert_eq!(
        escrow.propose_client_migration(id, client_addr, new_client, LEDGER),
        Err(Error::InvalidStatusTransition)
    );
}

#[test]
fn migration_stays_acceptable_through_its_last_ledger() {
    let mut escrow = register_client();
    let (client_addr, _freelancer_addr, id) = create_contract(&mut escrow);
    let new_client = Address::account(3);
    escrow.propose_client_migration(id, client_addr, new_client, LEDGER).unwrap();
    let last = Ledger { sequence: LEDGER.sequence + PENDING_MIGRATION_TTL_LEDGERS, timestamp: 5_000 };
    assert!(escrow.has_pending_client_migration(id, last));
    assert!(escrow.accept_client_migration(id, new_client, last).is_ok());
}
