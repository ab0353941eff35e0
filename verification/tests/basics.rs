use escrow::{Address, Escrow, Ledger, ReleaseAuthorization};

const LEDGER: Ledger = Ledger { sequence: 100, timestamp: 1_000 };

fn setup() -> (Escrow, Address, Address) {
    let admin = Address::account(900);
    let mut escrow = Escrow::new();
    escrow.initialize(admin).unwrap();
    escrow.set_settlement_token(admin, Address::contract(7)).unwrap();
    (escrow, Address::account(1), Address::account(2))
}

fn create_default_contract(escrow: &mut Escrow, client_addr: Address, freelancer_addr: Address) -> u32 {
    escrow
        .create_contract(
            client_addr,
            freelancer_addr,
            None,
            vec![200_0000000_i128, 400_0000000_i128, 600_0000000_i128],
            ReleaseAuthorization::ClientOnly,
        )
        .unwrap()
}

#[test]
fn test_test_hello() {
    assert_eq!(Escrow::hello("World"), "World");
}

#[test]
fn test_create_contract() {
    let (mut escrow, client_addr, freelancer_addr) = setup();
    let id = create_default_contract(&mut escrow, client_addr, freelancer_addr);
    assert_eq!(id, 1);
}

#[test]
fn test_deposit_funds() {
    let (mut escrow, client_addr, freelancer_addr) = setup();
    let contract_id = create_default_contract(&mut escrow, client_addr, freelancer_addr);
    assert!(escrow.deposit_funds(contract_id, client_addr, 1_000_0000000).is_ok());
}

#[test]
fn test_release_milestone() {
    let (mut escrow, client_addr, freelancer_addr) = setup();
    let contract_id = create_default_contract(&mut escrow, client_addr, freelancer_addr);
    assert!(escrow.deposit_funds(contract_id, client_addr, 1_200_0000000_i128).is_ok());
    escrow.approve_milestone_release(contract_id, client_addr, 0, LEDGER).unwrap();
    assert!(escrow.release_milestone(contract_id, client_addr, 0, LEDGER).is_ok());
}
