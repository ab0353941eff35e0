use escrow::{Address, Error, Escrow, Ledger, ReleaseAuthorization};

const LEDGER: Ledger = Ledger { sequence: 100, timestamp: 1_000 };

fn setup() -> (Escrow, Address, Address, Address) {
    let admin = Address::account(900);
    let mut escrow = Escrow::new();
    escrow.initialize(admin).unwrap();
    escrow.set_settlement_token(admin, Address::contract(7)).unwrap();
    (escrow, Address::account(1), Address::account(2), Address::account(3))
}

fn create_funded_contract(
    escrow: &mut Escrow,
    client_addr: Address,
    freelancer_addr: Address,
    arbiter: Option<Address>,
    auth: ReleaseAuthorization,
) -> u32 {
    let id = escrow
        .create_contract(client_addr, freelancer_addr, arbiter, vec![500_0000000_i128, 300_0000000_i128], auth)
        .unwrap();
    escrow.deposit_funds(id, client_addr, 800_0000000_i128).unwrap();
    id
}

#[test]
fn clientonly_matrix_allowed_approvers() {
    let (mut escrow, client_addr, freelancer_addr, arbiter_addr) = setup();

    let id = create_funded_contract(&mut escrow, client_addr, freelancer_addr, None, ReleaseAuthorization::ClientOnly);

    // Client can approve
    let result = escrow.approve_milestone_release(id, client_addr, 0, LEDGER);
    assert!(result.is_ok(), "Client should be allowed to approve in ClientOnly mode");

    // Freelancer cannot approve
    let result = escrow.approve_milestone_release(id, freelancer_addr, 0, LEDGER);
    assert_eq!(result, Err(Error::UnauthorizedRole));

    // Arbiter cannot approve
    let result = escrow.approve_milestone_release(id, arbiter_addr, 0, LEDGER);
    assert_eq!(result, Err(Error::UnauthorizedRole));
}

#[test]
fn clientonly_matrix_required_approvals() {
    let (mut escrow, client_addr, freelancer_addr, _) = setup();

    let id = create_funded_contract(&mut escrow, client_addr, freelancer_addr, None, ReleaseAuthorization::ClientOnly);

    // Without approvals, release fails
    let result = escrow.release_milestone(id, client_addr, 0, LEDGER).map(|_| ());
    assert_eq!(result, Err(Error::InsufficientApprovals));

    // With client approval, release succeeds
    assert!(escrow.approve_milestone_release(id, client_addr, 0, LEDGER).is_ok());
    let result = escrow.release_milestone(id, client_addr, 0, LEDGER).map(|_| ());
    assert!(result.is_ok(), "Release should succeed with client approval");
}

#[test]
fn clientonly_matrix_allowed_release_callers() {
    let (mut escrow, client_addr, freelancer_addr, arbiter_addr) = setup();

    let id = create_funded_contract(&mut escrow, client_addr, freelancer_addr, None, ReleaseAuthorization::ClientOnly);

    assert!(escrow.approve_milestone_release(id, client_addr, 0, LEDGER).is_ok());

    // Client can release
    let result = escrow.release_milestone(id, client_addr, 0, LEDGER).map(|_| ());
    assert!(result.is_ok(), "Client should be allowed to release in ClientOnly mode");

    // Freelancer cannot release
    let result = escrow.release_milestone(id, freelancer_addr, 0, LEDGER).map(|_| ());
    assert_eq!(result, Err(Error::UnauthorizedRole));

    // Arbiter cannot release
    let result = escrow.release_milestone(id, arbiter_addr, 0, LEDGER).map(|_| ());
    assert_eq!(result, Err(Error::UnauthorizedRole));
}

#[test]
fn arbiteronly_matrix_allowed_approvers() {
    let (mut escrow, client_addr, freelancer_addr, arbiter_addr) = setup();

    let id = create_funded_contract(&mut escrow, client_addr, freelancer_addr, Some(arbiter_addr), ReleaseAuthorization::ArbiterOnly);

    // Arbiter can approve
    let result = escrow.approve_milestone_release(id, arbiter_addr, 0, LEDGER);
    assert!(result.is_ok(), "Arbiter should be allowed to approve in ArbiterOnly mode");

    // Client cannot approve
    let result = escrow.approve_milestone_release(id, client_addr, 0, LEDGER);
    assert_eq!(result, Err(Error::UnauthorizedRole));

    // Freelancer cannot approve
    let result = escrow.approve_milestone_release(id, freelancer_addr, 0, LEDGER);
    assert_eq!(result, Err(Error::UnauthorizedRole));
}

#[test]
fn arbiteronly_matrix_required_approvals() {
    let (mut escrow, client_addr, freelancer_addr, arbiter_addr) = setup();

    let id = create_funded_contract(&mut escrow, client_addr, freelancer_addr, Some(arbiter_addr), ReleaseAuthorization::ArbiterOnly);

    // Without approvals, release fails
    let result = escrow.release_milestone(id, arbiter_addr, 0, LEDGER).map(|_| ());
    assert_eq!(result, Err(Error::InsufficientApprovals));

    // With arbiter approval, release succeeds
    assert!(escrow.approve_milestone_release(id, arbiter_addr, 0, LEDGER).is_ok());
    let result = escrow.release_milestone(id, arbiter_addr, 0, LEDGER).map(|_| ());
    assert!(result.is_ok(), "Release should succeed with arbiter approval");
}

#[test]
fn arbiteronly_matrix_allowed_release_callers() {
    let (mut escrow, client_addr, freelancer_addr, arbiter_addr) = setup();

    let id = create_funded_contract(&mut escrow, client_addr, freelancer_addr, Some(arbiter_addr), ReleaseAuthorization::ArbiterOnly);

    assert!(escrow.approve_milestone_release(id, arbiter_addr, 0, LEDGER).is_ok());

    // Arbiter can release
    let result = escrow.release_milestone(id, arbiter_addr, 0, LEDGER).map(|_| ());
    assert!(result.is_ok(), "Arbiter should be allowed to release in ArbiterOnly mode");

    // Client cannot release
    let result = escrow.release_milestone(id, client_addr, 0, LEDGER).map(|_| ());
    assert_eq!(result, Err(Error::UnauthorizedRole));

    // Freelancer cannot release
    let result = escrow.release_milestone(id, freelancer_addr, 0, LEDGER).map(|_| ());
    assert_eq!(result, Err(Error::UnauthorizedRole));
}

#[test]
fn clientandarbiter_matrix_allowed_approvers() {
    let (mut escrow, client_addr, freelancer_addr, arbiter_addr) = setup();

    let id = create_funded_contract(&mut escrow, client_addr, freelancer_addr, Some(arbiter_addr), ReleaseAuthorization::ClientAndArbiter);

    // Client can approve
    let result = escrow.approve_milestone_release(id, client_addr, 0, LEDGER);
    assert!(result.is_ok(), "Client should be allowed to approve in ClientAndArbiter mode");

    // Arbiter can approve
    let result = escrow.approve_milestone_release(id, arbiter_addr, 0, LEDGER);
    assert!(result.is_ok(), "Arbiter should be allowed to approve in ClientAndArbiter mode");

    // Freelancer cannot approve
    let result = escrow.approve_milestone_release(id, freelancer_addr, 0, LEDGER);
    assert_eq!(result, Err(Error::UnauthorizedRole));
}

#[test]
fn clientandarbiter_matrix_required_approvals_or_logic() {
    let (mut escrow, client_addr, freelancer_addr, arbiter_addr) = setup();

    // Test with client approval only
    let id1 = create_funded_contract(&mut escrow, client_addr, freelancer_addr, Some(arbiter_addr), ReleaseAuthorization::ClientAndArbiter);
    assert!(escrow.approve_milestone_release(id1, client_addr, 0, LEDGER).is_ok());
    let result = escrow.release_milestone(id1, client_addr, 0, LEDGER).map(|_| ());
    assert!(result.is_ok(), "Release should succeed with only client approval (OR logic)");

    // Test with arbiter approval only
    let id2 = create_funded_contract(&mut escrow, client_addr, freelancer_addr, Some(arbiter_addr), ReleaseAuthorization::ClientAndArbiter);
    assert!(escrow.approve_milestone_release(id2, arbiter_addr, 0, LEDGER).is_ok());
    let result = escrow.release_milestone(id2, arbiter_addr, 0, LEDGER).map(|_| ());
    assert!(result.is_ok(), "Release should succeed with only arbiter approval (OR logic)");
}

#[test]
fn clientandarbiter_matrix_allowed_release_callers() {
    let (mut escrow, client_addr, freelancer_addr, arbiter_addr) = setup();

    let id = create_funded_contract(&mut escrow, client_addr, freelancer_addr, Some(arbiter_addr), ReleaseAuthorization::ClientAndArbiter);

    assert!(escrow.approve_milestone_release(id, client_addr, 0, LEDGER).is_ok());

    // Client can release
    let result = escrow.release_milestone(id, client_addr, 0, LEDGER).map(|_| ());
    assert!(result.is_ok(), "Client should be allowed to release in ClientAndArbiter mode");

    // Arbiter can release
    let id2 = create_funded_contract(&mut escrow, client_addr, freelancer_addr, Some(arbiter_addr), ReleaseAuthorization::ClientAndArbiter);
    assert!(escrow.approve_milestone_release(id2, arbiter_addr, 0, LEDGER).is_ok());
    let result = escrow.release_milestone(id2, arbiter_addr, 0, LEDGER).map(|_| ());
    assert!(result.is_ok(), "Arbiter should be allowed to release in ClientAndArbiter mode");

    // Freelancer cannot release
    let result = escrow.release_milestone(id, freelancer_addr, 0, LEDGER).map(|_| ());
    assert_eq!(result, Err(Error::UnauthorizedRole));
}

#[test]
fn multisig_matrix_allowed_approvers() {
    let (mut escrow, client_addr, freelancer_addr, arbiter_addr) = setup();

    let id = create_funded_contract(&mut escrow, client_addr, freelancer_addr, None, ReleaseAuthorization::MultiSig);

    // Client can approve
    let result = escrow.approve_milestone_release(id, client_addr, 0, LEDGER);
    assert!(result.is_ok(), "Client should be allowed to approve in MultiSig mode");

    // Freelancer can approve
    let result = escrow.approve_milestone_release(id, freelancer_addr, 0, LEDGER);
    assert!(result.is_ok(), "Freelancer should be allowed to approve in MultiSig mode");

    // Arbiter cannot approve
    let result = escrow.approve_milestone_release(id, arbiter_addr, 0, LEDGER);
    assert_eq!(result, Err(Error::UnauthorizedRole));
}

#[test]
fn multisig_matrix_required_approvals_and_logic() {
    let (mut escrow, client_addr, freelancer_addr, _) = setup();

    let id = create_funded_contract(&mut escrow, client_addr, freelancer_addr, None, ReleaseAuthorization::MultiSig);

    // With only client approval, release fails
    assert!(escrow.approve_milestone_release(id, client_addr, 0, LEDGER).is_ok());
    let result = escrow.release_milestone(id, client_addr, 0, LEDGER).map(|_| ());
    assert_eq!(result, Err(Error::InsufficientApprovals));

    // With both approvals, release succeeds
    assert!(escrow.approve_milestone_release(id, freelancer_addr, 0, LEDGER).is_ok());
    let result = escrow.release_milestone(id, client_addr, 0, LEDGER).map(|_| ());
    assert!(result.is_ok(), "Release should succeed with both client and freelancer approval (AND logic)");
}

#[test]
fn multisig_matrix_allowed_release_callers() {
    let (mut escrow, client_addr, freelancer_addr, arbiter_addr) = setup();

    let id = create_funded_contract(&mut escrow, client_addr, freelancer_addr, None, ReleaseAuthorization::MultiSig);

    assert!(escrow.approve_milestone_release(id, client_addr, 0, LEDGER).is_ok());
    assert!(escrow.approve_milestone_release(id, freelancer_addr, 0, LEDGER).is_ok());

    // Client can release
    let result = escrow.release_milestone(id, client_addr, 0, LEDGER).map(|_| ());
    assert!(result.is_ok(), "Client should be allowed to release in MultiSig mode");

    // Freelancer can release
    let id2 = create_funded_contract(&mut escrow, client_addr, freelancer_addr, None, ReleaseAuthorization::MultiSig);
    assert!(escrow.approve_milestone_release(id2, client_addr, 0, LEDGER).is_ok());
    assert!(escrow.approve_milestone_release(id2, freelancer_addr, 0, LEDGER).is_ok());
    let result = escrow.release_milestone(id2, freelancer_addr, 0, LEDGER).map(|_| ());
    assert!(result.is_ok(), "Freelancer should be allowed to release in MultiSig mode");

    // Arbiter cannot release
    let result = escrow.release_milestone(id, arbiter_addr, 0, LEDGER).map(|_| ());
    assert_eq!(result, Err(Error::UnauthorizedRole));
}

#[test]
fn matrix_error_codes_unauthorized_role() {
    let (mut escrow, client_addr, freelancer_addr, arbiter_addr) = setup();

    // ClientOnly: freelancer unauthorized
    let id = create_funded_contract(&mut escrow, client_addr, freelancer_addr, None, ReleaseAuthorization::ClientOnly);
    let result = escrow.approve_milestone_release(id, freelancer_addr, 0, LEDGER);
    assert_eq!(result, Err(Error::UnauthorizedRole));
}

#[test]
fn matrix_error_codes_already_approved() {
    let (mut escrow, client_addr, freelancer_addr, _) = setup();

    let id = create_funded_contract(&mut escrow, client_addr, freelancer_addr, None, ReleaseAuthorization::ClientOnly);

    // First approval succeeds
    assert!(escrow.approve_milestone_release(id, client_addr, 0, LEDGER).is_ok());

    // Duplicate approval fails
    let result = escrow.approve_milestone_release(id, client_addr, 0, LEDGER);
    assert_eq!(result, Err(Error::AlreadyApproved));
}

#[test]
fn matrix_error_codes_insufficient_approvals() {
    let (mut escrow, client_addr, freelancer_addr, _) = setup();

    let id = create_funded_contract(&mut escrow, client_addr, freelancer_addr, None, ReleaseAuthorization::ClientOnly);

    // Release without approval fails
    let result = escrow.release_milestone(id, client_addr, 0, LEDGER).map(|_| ());
    assert_eq!(result, Err(Error::InsufficientApprovals));
}

#[test]
fn matrix_error_codes_missing_arbiter() {
    let (mut escrow, client_addr, freelancer_addr, _) = setup();

    // ArbiterOnly without arbiter should fail at creation
    let result = escrow.create_contract(
        client_addr,
        freelancer_addr,
        None,
        vec![500_0000000_i128],
        ReleaseAuthorization::ArbiterOnly,
    );
    assert_eq!(result, Err(Error::MissingArbiter));
    assert!(result.is_err(), "ArbiterOnly mode should require arbiter at contract creation");
}
