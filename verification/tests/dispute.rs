use escrow::{
    final_status_after_resolution, resolution_payouts, Address, Contract, ContractStatus,
    DisputeResolution, Error, Escrow, Ledger, ReleaseAuthorization,
};

const LEDGER: Ledger = Ledger { sequence: 100, timestamp: 1_000 };

fn make_client() -> Escrow {
    let admin = Address::account(900);
    let mut escrow = Escrow::new();
    escrow.initialize(admin).unwrap();
    escrow.set_settlement_token(admin, Address::contract(7)).unwrap();
    escrow
}

/// A funded contract with an assigned arbiter under `ClientOnly` release
/// authorization: `(client, freelancer, arbiter, id)`.
fn funded_with_arbiter(escrow: &mut Escrow, milestones: Vec<i128>, deposit: i128) -> (Address, Address, Address, u32) {
    let n = escrow.next_contract_id as u128;
    let client_addr = Address::account(100 + 3 * n);
    let freelancer_addr = Address::account(101 + 3 * n);
    let arbiter_addr = Address::account(102 + 3 * n);
    let id = escrow
        .create_contract(client_addr, freelancer_addr, Some(arbiter_addr), milestones, ReleaseAuthorization::ClientOnly)
        .unwrap();
    escrow.deposit_funds(id, client_addr, deposit).unwrap();
    (client_addr, freelancer_addr, arbiter_addr, id)
}

fn payout_contract(funded: i128, released: i128, refunded: i128) -> Contract {
    Contract {
        client: Address::account(1),
        freelancer: Address::account(2),
        arbiter: Some(Address::account(3)),
        status: ContractStatus::Disputed,
        total_deposited: funded,
        funded_amount: funded,
        released_amount: released,
        refunded_amount: refunded,
        release_authorization: ReleaseAuthorization::ClientOnly,
        reputation_issued: false,
    }
}

fn assert_conservation(escrow: &Escrow, id: u32) {
    let c = escrow.get_contract(id).unwrap();
    assert_eq!(
        c.released_amount + c.refunded_amount,
        c.funded_amount,
        "conservation violated: released={} refunded={} funded={}",
        c.released_amount,
        c.refunded_amount,
        c.funded_amount
    );
}

#[test]
fn resolution_payouts_full_refund_returns_available_to_client() {
    let contract = payout_contract(100, 20, 10);
    assert_eq!(resolution_payouts(&contract, &DisputeResolution::FullRefund), Ok((70, 0)));
}

#[test]
fn resolution_payouts_full_payout_returns_available_to_freelancer() {
    let contract = payout_contract(100, 20, 10);
    assert_eq!(resolution_payouts(&contract, &DisputeResolution::FullPayout), Ok((0, 70)));
}

#[test]
fn resolution_payouts_partial_refund_uses_floor_rounded_70_30_split() {
    let contract = payout_contract(101, 0, 0);
    assert_eq!(resolution_payouts(&contract, &DisputeResolution::PartialRefund), Ok((71, 30)));
}

#[test]
fn resolution_payouts_partial_refund_handles_rounding_boundaries() {
    assert_eq!(resolution_payouts(&payout_contract(0, 0, 0), &DisputeResolution::PartialRefund), Ok((0, 0)));
    assert_eq!(resolution_payouts(&payout_contract(1, 0, 0), &DisputeResolution::PartialRefund), Ok((1, 0)));
}

#[test]
fn resolution_payouts_split_rejects_negative_legs() {
    let contract = payout_contract(100, 0, 0);
    assert_eq!(resolution_payouts(&contract, &DisputeResolution::Split(-1, 101)), Err(Error::InvalidDisputeSplit));
    assert_eq!(resolution_payouts(&contract, &DisputeResolution::Split(101, -1)), Err(Error::InvalidDisputeSplit));
}

#[test]
fn resolution_payouts_split_rejects_non_conserving_sums() {
    let contract = payout_contract(100, 0, 0);
    assert_eq!(resolution_payouts(&contract, &DisputeResolution::Split(40, 59)), Err(Error::InvalidDisputeSplit));
    assert_eq!(resolution_payouts(&contract, &DisputeResolution::Split(40, 61)), Err(Error::InvalidDisputeSplit));
}

#[test]
fn resolution_payouts_split_accepts_exact_splits() {
    assert_eq!(resolution_payouts(&payout_contract(100, 0, 0), &DisputeResolution::Split(40, 60)), Ok((40, 60)));
    assert_eq!(resolution_payouts(&payout_contract(0, 0, 0), &DisputeResolution::Split(0, 0)), Ok((0, 0)));
}

#[test]
fn resolution_payouts_split_rejects_overflowing_sum() {
    let contract = payout_contract(i128::MAX, 0, 0);
    assert_eq!(
        resolution_payouts(&contract, &DisputeResolution::Split(i128::MAX, 1)),
        Err(Error::PotentialOverflow)
    );
}

#[test]
fn resolution_payouts_rejects_corrupted_accounting_state() {
    let contract = payout_contract(100, 70, 31);
    assert_eq!(
        resolution_payouts(&contract, &DisputeResolution::FullRefund),
        Err(Error::AccountingInvariantViolated)
    );
}

#[test]
fn final_status_after_resolution_marks_refunded_only_for_full_refund() {
    assert_eq!(final_status_after_resolution(&payout_contract(100, 0, 100)), ContractStatus::Refunded);
    assert_eq!(final_status_after_resolution(&payout_contract(100, 30, 70)), ContractStatus::Completed);
}

#[test]
fn client_can_raise_dispute_on_funded_contract() {
    let mut escrow = make_client();
    let (client_addr, _, _, id) = funded_with_arbiter(&mut escrow, vec![100, 200], 300);
    assert!(escrow.raise_dispute(id, client_addr).is_ok());
    assert_eq!(escrow.get_contract(id).unwrap().status, ContractStatus::Disputed);
}

#[test]
fn freelancer_can_raise_dispute_on_funded_contract() {
    let mut escrow = make_client();
    let (_, freelancer_addr, _, id) = funded_with_arbiter(&mut escrow, vec![100, 200], 300);
    assert!(escrow.raise_dispute(id, freelancer_addr).is_ok());
    assert_eq!(escrow.get_contract(id).unwrap().status, ContractStatus::Disputed);
}

#[test]
fn raise_dispute_requires_contract_party() {
    let mut escrow = make_client();
    let (_, _, _, id) = funded_with_arbiter(&mut escrow, vec![100], 100);
    let outsider = Address::account(999);
    assert_eq!(escrow.raise_dispute(id, outsider), Err(Error::UnauthorizedRole));
}

#[test]
fn raise_dispute_requires_assigned_arbiter() {
    let mut escrow = make_client();
    let client_addr = Address::account(1);
    let id = escrow
        .create_contract(client_addr, Address::account(2), None, vec![100], ReleaseAuthorization::ClientOnly)
        .unwrap();
    escrow.deposit_funds(id, client_addr, 100).unwrap();
    assert_eq!(escrow.raise_dispute(id, client_addr), Err(Error::ArbiterRequired));
}

#[test]
fn raise_dispute_rejects_completed_contract() {
    let mut escrow = make_client();
    let (client_addr, _, _, id) = funded_with_arbiter(&mut escrow, vec![100], 100);
    escrow.approve_milestone_release(id, client_addr, 0, LEDGER).unwrap();
    escrow.release_milestone(id, client_addr, 0, LEDGER).unwrap();
    assert_eq!(escrow.raise_dispute(id, client_addr), Err(Error::InvalidState));
}

#[test]
fn resolve_full_refund_marks_refunded_and_closes_accounting() {
    let mut escrow = make_client();
    let (client_addr, _, arbiter_addr, escrow_id) = funded_with_arbiter(&mut escrow, vec![125, 75], 200);
    assert!(escrow.raise_dispute(escrow_id, client_addr).is_ok());
    assert!(escrow.resolve_dispute(escrow_id, arbiter_addr, DisputeResolution::FullRefund).is_ok());
    let contract = escrow.get_contract(escrow_id).unwrap();
    assert_eq!(contract.status, ContractStatus::Refunded);
    assert_eq!(contract.released_amount, 0);
    assert_eq!(contract.refunded_amount, 200);
    assert_eq!(contract.released_amount + contract.refunded_amount, contract.funded_amount);
}

#[test]
fn resolve_full_payout_marks_completed_and_closes_accounting() {
    let mut escrow = make_client();
    let (client_addr, _, arbiter_addr, escrow_id) = funded_with_arbiter(&mut escrow, vec![150], 150);
    assert!(escrow.raise_dispute(escrow_id, client_addr).is_ok());
    assert!(escrow.resolve_dispute(escrow_id, arbiter_addr, DisputeResolution::FullPayout).is_ok());
    let contract = escrow.get_contract(escrow_id).unwrap();
    assert_eq!(contract.status, ContractStatus::Completed);
    assert_eq!(contract.released_amount, 150);
    assert_eq!(contract.refunded_amount, 0);
    assert_eq!(contract.released_amount + contract.refunded_amount, contract.funded_amount);
}

#[test]
fn resolve_partial_refund_applies_70_30_split() {
    let mut escrow = make_client();
    let (client_addr, _, arbiter_addr, escrow_id) = funded_with_arbiter(&mut escrow, vec![100], 100);
    assert!(escrow.raise_dispute(escrow_id, client_addr).is_ok());
    assert!(escrow.resolve_dispute(escrow_id, arbiter_addr, DisputeResolution::PartialRefund).is_ok());
    let contract = escrow.get_contract(escrow_id).unwrap();
    assert_eq!(contract.status, ContractStatus::Completed);
    assert_eq!(contract.refunded_amount, 70);
    assert_eq!(contract.released_amount, 30);
    assert_eq!(contract.released_amount + contract.refunded_amount, contract.funded_amount);
}

#[test]
fn resolve_partial_refund_applies_to_remaining_balance() {
    let mut escrow = make_client();
    let (client_addr, _, arbiter_addr, escrow_id) = funded_with_arbiter(&mut escrow, vec![101, 100], 201);
    assert!(escrow.approve_milestone_release(escrow_id, client_addr, 0, LEDGER).is_ok());
    assert!(escrow.release_milestone(escrow_id, client_addr, 0, LEDGER).is_ok());
    assert!(escrow.raise_dispute(escrow_id, client_addr).is_ok());
    assert!(escrow.resolve_dispute(escrow_id, arbiter_addr, DisputeResolution::PartialRefund).is_ok());
    let contract = escrow.get_contract(escrow_id).unwrap();
    assert_eq!(contract.status, ContractStatus::Completed);
    assert_eq!(contract.released_amount, 131);
    assert_eq!(contract.refunded_amount, 70);
    assert_eq!(contract.released_amount + contract.refunded_amount, contract.funded_amount);
}

#[test]
fn resolve_split_accepts_custom_amounts_that_match_available_balance() {
    let mut escrow = make_client();
    let (client_addr, _, arbiter_addr, escrow_id) = funded_with_arbiter(&mut escrow, vec![40, 60], 100);
    assert!(escrow.raise_dispute(escrow_id, client_addr).is_ok());
    assert!(escrow.resolve_dispute(escrow_id, arbiter_addr, DisputeResolution::Split(35, 65)).is_ok());
    let contract = escrow.get_contract(escrow_id).unwrap();
    assert_eq!(contract.status, ContractStatus::Completed);
    assert_eq!(contract.refunded_amount, 35);
    assert_eq!(contract.released_amount, 65);
}

#[test]
fn resolve_split_rejects_invalid_totals() {
    let mut escrow = make_client();
    let (client_addr, _, arbiter_addr, escrow_id) = funded_with_arbiter(&mut escrow, vec![100], 100);
    assert!(escrow.raise_dispute(escrow_id, client_addr).is_ok());
    assert_eq!(
        escrow.resolve_dispute(escrow_id, arbiter_addr, DisputeResolution::Split(30, 50)),
        Err(Error::InvalidDisputeSplit)
    );
}

#[test]
fn resolve_split_rejects_negative_amounts() {
    let mut escrow = make_client();
    let (client_addr, _, arbiter_addr, escrow_id) = funded_with_arbiter(&mut escrow, vec![100], 100);
    assert!(escrow.raise_dispute(escrow_id, client_addr).is_ok());
    assert_eq!(
        escrow.resolve_dispute(escrow_id, arbiter_addr, DisputeResolution::Split(-10, 110)),
        Err(Error::InvalidDisputeSplit)
    );
}

#[test]
fn resolve_dispute_requires_assigned_arbiter() {
    let mut escrow = make_client();
    let (client_addr, _, _, id) = funded_with_arbiter(&mut escrow, vec![100], 100);
    escrow.raise_dispute(id, client_addr).unwrap();
    let outsider = Address::account(999);
    assert_eq!(
        escrow.resolve_dispute(id, outsider, DisputeResolution::FullPayout),
        Err(Error::UnauthorizedRole)
    );
}

#[test]
fn resolve_dispute_rejects_non_disputed_contract() {
    let mut escrow = make_client();
    let (_, _, arbiter_addr, id) = funded_with_arbiter(&mut escrow, vec![100], 100);
    assert_eq!(
        escrow.resolve_dispute(id, arbiter_addr, DisputeResolution::FullRefund),
        Err(Error::InvalidStatusTransition)
    );
}

#[test]
fn resolve_dispute_cannot_be_called_twice() {
    let mut escrow = make_client();
    let (client_addr, _, arbiter_addr, id) = funded_with_arbiter(&mut escrow, vec![100], 100);
    escrow.raise_dispute(id, client_addr).unwrap();
    escrow.resolve_dispute(id, arbiter_addr, DisputeResolution::FullRefund).unwrap();
    assert_eq!(
        escrow.resolve_dispute(id, arbiter_addr, DisputeResolution::FullPayout),
        Err(Error::InvalidStatusTransition)
    );
}

#[test]
fn full_refund_conserves_funded_amount_no_prior_releases() {
    let mut escrow = make_client();
    let (client_addr, _, arbiter_addr, id) = funded_with_arbiter(&mut escrow, vec![125, 75], 200);
    escrow.raise_dispute(id, client_addr).unwrap();
    escrow.resolve_dispute(id, arbiter_addr, DisputeResolution::FullRefund).unwrap();
    let c = escrow.get_contract(id).unwrap();
    assert_eq!(c.status, ContractStatus::Refunded);
    assert_eq!(c.released_amount, 0);
    assert_eq!(c.refunded_amount, 200);
    assert_conservation(&escrow, id);
}

#[test]
fn full_payout_conserves_funded_amount_no_prior_releases() {
    let mut escrow = make_client();
    let (client_addr, _, arbiter_addr, id) = funded_with_arbiter(&mut escrow, vec![150], 150);
    escrow.raise_dispute(id, client_addr).unwrap();
    escrow.resolve_dispute(id, arbiter_addr, DisputeResolution::FullPayout).unwrap();
    let c = escrow.get_contract(id).unwrap();
    assert_eq!(c.status, ContractStatus::Completed);
    assert_eq!(c.released_amount, 150);
    assert_eq!(c.refunded_amount, 0);
    assert_conservation(&escrow, id);
}

#[test]
fn partial_refund_conserves_funded_amount_no_prior_releases() {
    let mut escrow = make_client();
    let (client_addr, _, arbiter_addr, id) = funded_with_arbiter(&mut escrow, vec![100], 100);
    escrow.raise_dispute(id, client_addr).unwrap();
    escrow.resolve_dispute(id, arbiter_addr, DisputeResolution::PartialRefund).unwrap();
    let c = escrow.get_contract(id).unwrap();
    assert_eq!(c.status, ContractStatus::Completed);
    assert_eq!(c.refunded_amount, 70);
    assert_eq!(c.released_amount, 30);
    assert_conservation(&escrow, id);
}

#[test]
fn split_conserves_funded_amount_when_sum_equals_available() {
    let mut escrow = make_client();
    let (client_addr, _, arbiter_addr, id) = funded_with_arbiter(&mut escrow, vec![40, 60], 100);
    escrow.raise_dispute(id, client_addr).unwrap();
    escrow.resolve_dispute(id, arbiter_addr, DisputeResolution::Split(35, 65)).unwrap();
    let c = escrow.get_contract(id).unwrap();
    assert_eq!(c.status, ContractStatus::Completed);
    assert_eq!(c.refunded_amount, 35);
    assert_eq!(c.released_amount, 65);
    assert_conservation(&escrow, id);
}

#[test]
fn pause_blocks_resolve_dispute() {
    let mut escrow = make_client();
    let (client_addr, _, arbiter_addr, id) = funded_with_arbiter(&mut escrow, vec![100], 100);
    escrow.raise_dispute(id, client_addr).unwrap();
    escrow.pause().unwrap();
    assert_eq!(
        escrow.resolve_dispute(id, arbiter_addr, DisputeResolution::FullRefund),
        Err(Error::ContractPaused)
    );
}

#[test]
fn emergency_blocks_raise_and_resolve_dispute() {
    let mut escrow = make_client();
    let (client_addr, _, arbiter_addr, id) = funded_with_arbiter(&mut escrow, vec![100], 100);
    escrow.activate_emergency_pause().unwrap();
    escrow.paused = false;
    assert_eq!(escrow.raise_dispute(id, client_addr), Err(Error::EmergencyActive));
    escrow.resolve_emergency().unwrap();
    escrow.raise_dispute(id, client_addr).unwrap();
    escrow.activate_emergency_pause().unwrap();
    escrow.paused = false;
    assert_eq!(
        escrow.resolve_dispute(id, arbiter_addr, DisputeResolution::FullRefund),
        Err(Error::EmergencyActive)
    );
}

#[test]
fn disputes_on_independent_contracts_do_not_cross_contaminate() {
    let mut escrow = make_client();
    let (c1, _, a1, id1) = funded_with_arbiter(&mut escrow, vec![100], 100);
    let (c2, _, a2, id2) = funded_with_arbiter(&mut escrow, vec![200], 200);
    escrow.raise_dispute(id1, c1).unwrap();
    escrow.raise_dispute(id2, c2).unwrap();
    escrow.resolve_dispute(id1, a1, DisputeResolution::FullRefund).unwrap();
    escrow.resolve_dispute(id2, a2, DisputeResolution::FullPayout).unwrap();
    assert_conservation(&escrow, id1);
    assert_conservation(&escrow, id2);
    let c1_state = escrow.get_contract(id1).unwrap();
    let c2_state = escrow.get_contract(id2).unwrap();
    assert_eq!(c1_state.status, ContractStatus::Refunded);
    assert_eq!(c1_state.refunded_amount, 100);
    assert_eq!(c2_state.status, ContractStatus::Completed);
    assert_eq!(c2_state.released_amount, 200);
}

#[test]
fn resolve_dispute_event_carries_client_and_freelancer_payouts() {
    let mut escrow = make_client();
    let (client_addr, freelancer_addr, arbiter_addr, id) = funded_with_arbiter(&mut escrow, vec![80, 20], 100);
    escrow.raise_dispute(id, client_addr).unwrap();
    let receipt = escrow.resolve_dispute(id, arbiter_addr, DisputeResolution::FullRefund).unwrap();
    let token = Address::contract(7);
    assert_eq!(receipt.client_payout, escrow::Transfer::FromEscrow { token, to: client_addr, amount: 100 });
    assert_eq!(receipt.freelancer_payout, escrow::Transfer::FromEscrow { token, to: freelancer_addr, amount: 0 });
    assert_conservation(&escrow, id);
}

#[test]
fn resolution_codes_are_stable() {
    assert_eq!(DisputeResolution::FullRefund.code(), 0);
    assert_eq!(DisputeResolution::PartialRefund.code(), 1);
    assert_eq!(DisputeResolution::FullPayout.code(), 2);
    assert_eq!(DisputeResolution::Split(1, 2).code(), 3);
}
