#![allow(dead_code)]
use escrow::{Address, ContractStatus, Error, Escrow, Ledger, ReleaseAuthorization};

const LEDGER: Ledger = Ledger { sequence: 100, timestamp: 1_000 };
const MILESTONE_ONE: i128 = 200_0000000;
const MILESTONE_TWO: i128 = 400_0000000;
const MILESTONE_THREE: i128 = 600_0000000;

fn total_milestone_amount() -> i128 {
    MILESTONE_ONE + MILESTONE_TWO + MILESTONE_THREE
}

fn default_milestones() -> Vec<i128> {
    vec![MILESTONE_ONE, MILESTONE_TWO, MILESTONE_THREE]
}

fn register_client() -> Escrow {
    let admin = Address::account(900);
    let mut escrow = Escrow::new();
    escrow.initialize(admin).unwrap();
    escrow.set_settlement_token(admin, Address::contract(7)).unwrap();
    escrow
}

fn create_contract(escrow: &mut Escrow) -> (Address, Address, u32) {
    let client_addr = Address::account(1);
    let freelancer_addr = Address::account(2);
    let id = escrow
        .create_contract(client_addr, freelancer_addr, None, default_milestones(), ReleaseAuthorization::ClientOnly)
        .unwrap();
    (client_addr, freelancer_addr, id)
}

fn approve_and_release(escrow: &mut Escrow, id: u32, caller: Address, index: u32) {
    escrow.approve_milestone_release(id, caller, index, LEDGER).unwrap();
    escrow.release_milestone(id, caller, index, LEDGER).unwrap();
}

fn complete_contract(escrow: &mut Escrow) -> (Address, Address, u32) {
    let (client_addr, freelancer_addr, id) = create_contract(escrow);
    escrow.deposit_funds(id, client_addr, total_milestone_amount()).unwrap();
    for i in 0..3u32 {
        approve_and_release(escrow, id, client_addr, i);
    }
    (client_addr, freelancer_addr, id)
}

#[test]
fn deposit_incremental_two_deposits_transitions_to_funded() {
    let mut escrow = register_client();
    let (client_addr, _freelancer_addr, contract_id) = create_contract(&mut escrow);
    let total = total_milestone_amount();
    let partial = total / 2;

    assert!(escrow.deposit_funds(contract_id, client_addr, partial).is_ok());
    let contract = escrow.get_contract(contract_id).unwrap();
    assert_eq!(contract.status, ContractStatus::PartiallyFunded);
    assert_eq!(contract.funded_amount, partial);
    assert_eq!(contract.released_amount, 0);
    assert_eq!(contract.refunded_amount, 0);

    assert!(escrow.deposit_funds(contract_id, client_addr, total - partial).is_ok());
    let contract = escrow.get_contract(contract_id).unwrap();
    assert_eq!(contract.status, ContractStatus::Funded);
    assert_eq!(contract.funded_amount, total);
}

#[test]
fn release_rejects_legacy_aggregate_funding_without_milestone_allocation() {
    let mut escrow = register_client();
    let (client_addr, _freelancer_addr, contract_id) = create_contract(&mut escrow);
    {
        let record = &mut escrow.records[(contract_id - 1) as usize];
        record.contract.status = ContractStatus::Funded;
        record.contract.funded_amount = total_milestone_amount();
        record.milestones[0].funded_amount = MILESTONE_ONE - 1;
    }
    assert!(escrow.approve_milestone_release(contract_id, client_addr, 0, LEDGER).is_ok());
    assert_eq!(
        escrow.release_milestone(contract_id, client_addr, 0, LEDGER),
        Err(Error::InsufficientFunds)
    );
}

#[test]
fn test_deposit_unauthorized_role() {
    let mut escrow = register_client();
    let (_client_addr, _freelancer_addr, contract_id) = create_contract(&mut escrow);
    let wrong_caller = Address::account(55);
    assert_eq!(
        escrow.deposit_funds(contract_id, wrong_caller, 100_0000000_i128),
        Err(Error::UnauthorizedRole)
    );
}

#[test]
fn test_deposit_invalid_state() {
    let mut escrow = register_client();
    let (client_addr, _freelancer_addr, contract_id) = create_contract(&mut escrow);
    assert!(escrow.deposit_funds(contract_id, client_addr, total_milestone_amount()).is_ok());
    assert_eq!(
        escrow.deposit_funds(contract_id, client_addr, 100_0000000_i128),
        Err(Error::InvalidState)
    );
}

#[test]
fn deposit_hands_back_the_transfer_into_escrow() {
    let mut escrow = register_client();
    let (client_addr, _freelancer_addr, contract_id) = create_contract(&mut escrow);
    assert_eq!(
        escrow.deposit_funds(contract_id, client_addr, MILESTONE_ONE),
        Ok(escrow::Transfer::ToEscrow { token: Address::contract(7), from: client_addr, amount: MILESTONE_ONE })
    );
}

#[test]
fn deposit_beyond_the_milestone_total_is_refused() {
    let mut escrow = register_client();
    let (client_addr, _freelancer_addr, contract_id) = create_contract(&mut escrow);
    assert_eq!(
        escrow.deposit_funds(contract_id, client_addr, total_milestone_amount() + 1),
        Err(Error::InvalidDepositAmount)
    );
    assert_eq!(escrow.get_contract(contract_id).unwrap().funded_amount, 0);
}

#[test]
fn deposit_without_settlement_token_is_refused() {
    let mut escrow = Escrow::new();
    escrow.initialize(Address::account(900)).unwrap();
    let (client_addr, _freelancer_addr, contract_id) = create_contract(&mut escrow);
    assert_eq!(
        escrow.deposit_funds(contract_id, client_addr, MILESTONE_ONE),
        Err(Error::SettlementTokenNotConfigured)
    );
}

#[test]
fn deposit_fills_milestones_in_order() {
    let mut escrow = register_client();
    let (client_addr, _freelancer_addr, contract_id) = create_contract(&mut escrow);
    escrow.deposit_funds(contract_id, client_addr, MILESTONE_ONE + 100).unwrap();
    let ms = escrow.get_milestones(contract_id).unwrap();
    assert_eq!(ms[0].funded_amount, MILESTONE_ONE);
    assert_eq!(ms[1].funded_amount, 100);
    assert_eq!(ms[2].funded_amount, 0);
}
