use escrow::{
    AccountId, CancelRequested, DisputeResolved, EscrowCancelled, EscrowCreated, EscrowError,
    EscrowEvent, EscrowFunded, EscrowMultiRelease, EscrowStatus, Milestone, MilestoneReleased,
    Transfer,
};

fn payer() -> AccountId {
    AccountId([1u8; 32])
}

fn payee() -> AccountId {
    AccountId([2u8; 32])
}

fn arbiter() -> AccountId {
    AccountId([3u8; 32])
}

fn stranger() -> AccountId {
    AccountId([4u8; 32])
}

fn ms(amounts: &[u128]) -> Vec<Milestone> {
    amounts
        .iter()
        .enumerate()
        .map(|(i, a)| Milestone {
            id: i as u32,
            amount: *a,
            released: false,
            description: format!("step {}", i),
        })
        .collect()
}

fn created(arb: Option<AccountId>) -> (EscrowMultiRelease, u64) {
    let mut s = EscrowMultiRelease::new();
    let id = s.create_escrow(payer(), payee(), ms(&[1000, 2000]), arb, 42).unwrap();
    (s, id)
}

fn funded(arb: Option<AccountId>) -> (EscrowMultiRelease, u64) {
    let (mut s, id) = created(arb);
    s.fund_escrow(payer(), id, 3000).unwrap();
    (s, id)
}

fn sum(ts: &[Transfer]) -> u128 {
    ts.iter().map(|t| t.amount).sum()
}

#[test]
fn creation_records_total_and_parties() {
    let (s, id) = created(Some(arbiter()));
    let e = s.get_escrow(id).unwrap();
    assert_eq!(id, 0);
    assert_eq!(e.id, 0);
    assert_eq!(e.total_amount, 3000);
    assert_eq!(e.deposited, 0);
    assert_eq!(e.arbiter, Some(arbiter()));
    assert_eq!(e.cancel_requested_by, None);
    assert_eq!(e.created_at, 42);
    assert_eq!(s.escrow_count(), 1);
    assert_eq!(
        s.events().clone(),
        vec![EscrowEvent::Created(EscrowCreated {
            escrow_id: 0,
            client: payer(),
            freelancer: payee(),
            arbiter: Some(arbiter()),
            total_amount: 3000,
        })]
    );
}

#[test]
fn creation_ids_advance_only_on_success() {
    let mut s = EscrowMultiRelease::new();
    assert_eq!(s.create_escrow(payer(), payee(), ms(&[5]), None, 0), Ok(0));
    assert_eq!(s.create_escrow(payer(), payee(), vec![], None, 0), Err(EscrowError::EmptyMilestones));
    assert_eq!(s.create_escrow(payer(), payee(), ms(&[7, 8]), None, 0), Ok(1));
    assert_eq!(s.escrow_count(), 2);
}

#[test]
fn creation_rejects_zero_sum() {
    let mut s = EscrowMultiRelease::new();
    assert_eq!(s.create_escrow(payer(), payee(), ms(&[0, 0]), None, 0), Err(EscrowError::ZeroAmount));
    assert_eq!(s.escrow_count(), 0);
    assert!(s.events().is_empty());
}

#[test]
fn creation_rejects_out_of_order_ids() {
    let mut s = EscrowMultiRelease::new();
    let mut m = ms(&[10, 20]);
    m[1].id = 5;
    assert_eq!(s.create_escrow(payer(), payee(), m, None, 0), Err(EscrowError::InvalidAmount));
}

#[test]
fn creation_rejects_pre_released_milestone() {
    let mut s = EscrowMultiRelease::new();
    let mut m = ms(&[10, 20]);
    m[0].released = true;
    assert_eq!(s.create_escrow(payer(), payee(), m, None, 0), Err(EscrowError::InvalidStatus));
}

#[test]
fn creation_accepts_zero_amount_milestone_in_positive_sum() {
    let mut s = EscrowMultiRelease::new();
    let id = s.create_escrow(payer(), payee(), ms(&[0, 9]), None, 0).unwrap();
    assert_eq!(s.get_escrow(id).unwrap().total_amount, 9);
}

#[test]
fn scenario_fund_exact_and_short() {
    let (mut s, id) = created(None);
    assert_eq!(s.fund_escrow(payer(), id, 1000), Err(EscrowError::InsufficientFunds));
    assert_eq!(s.get_escrow(id).unwrap().status, EscrowStatus::Created);
    assert_eq!(s.get_escrow(id).unwrap().deposited, 0);
    assert_eq!(s.fund_escrow(payer(), id, 3000), Ok(()));
    let e = s.get_escrow(id).unwrap();
    assert_eq!(e.status, EscrowStatus::Funded);
    assert_eq!(e.deposited, 3000);
}

#[test]
fn funding_with_overpayment_deposits_total_only() {
    let (mut s, id) = created(None);
    assert_eq!(s.fund_escrow(payer(), id, 5000), Ok(()));
    assert_eq!(s.get_escrow(id).unwrap().deposited, 3000);
    assert_eq!(
        s.events().last(),
        Some(&EscrowEvent::Funded(EscrowFunded { escrow_id: id, amount: 5000 }))
    );
}

#[test]
fn funding_twice_is_invalid_status() {
    let (mut s, id) = funded(None);
    assert_eq!(s.fund_escrow(payer(), id, 3000), Err(EscrowError::InvalidStatus));
    assert_eq!(s.get_escrow(id).unwrap().deposited, 3000);
}

#[test]
fn scenario_release_pays_payee_then_completes() {
    let (mut s, id) = funded(None);
    let t0 = s.release_milestone(payer(), id, 0, 3000).unwrap();
    assert_eq!(t0, vec![Transfer { to: payee(), amount: 1000 }]);
    assert_eq!(s.get_escrow(id).unwrap().status, EscrowStatus::Funded);
    assert_eq!(
        s.release_milestone(payer(), id, 0, 2000),
        Err(EscrowError::MilestoneAlreadyReleased)
    );
    let t1 = s.release_milestone(payer(), id, 1, 2000).unwrap();
    assert_eq!(t1, vec![Transfer { to: payee(), amount: 2000 }]);
    assert_eq!(s.get_escrow(id).unwrap().status, EscrowStatus::Completed);
    assert_eq!(s.release_milestone(payer(), id, 0, 2000), Err(EscrowError::InvalidStatus));
    assert_eq!(
        s.events().last(),
        Some(&EscrowEvent::Released(MilestoneReleased { escrow_id: id, milestone_id: 1, amount: 2000 }))
    );
}

#[test]
fn release_of_unknown_milestone_fails() {
    let (mut s, id) = funded(None);
    assert_eq!(s.release_milestone(payer(), id, 2, 3000), Err(EscrowError::MilestoneNotFound));
}

#[test]
fn release_before_funding_is_invalid_status() {
    let (mut s, id) = created(None);
    assert_eq!(s.release_milestone(payer(), id, 0, 3000), Err(EscrowError::InvalidStatus));
}

#[test]
fn release_beyond_custody_changes_nothing() {
    let (mut s, id) = funded(None);
    let before = s.events().len();
    assert_eq!(s.release_milestone(payer(), id, 1, 1999), Err(EscrowError::InsufficientFunds));
    let e = s.get_escrow(id).unwrap();
    assert!(!e.milestones[1].released);
    assert_eq!(e.status, EscrowStatus::Funded);
    assert_eq!(s.events().len(), before);
}

#[test]
fn scenario_mutual_cancellation_refunds_payer() {
    let (mut s, id) = funded(None);
    assert_eq!(s.request_cancel(payer(), id, 3000), Ok(vec![]));
    let e = s.get_escrow(id).unwrap();
    assert_eq!(e.status, EscrowStatus::Disputed);
    assert_eq!(e.cancel_requested_by, Some(payer()));
    let ts = s.request_cancel(payee(), id, 3000).unwrap();
    assert_eq!(ts, vec![Transfer { to: payer(), amount: 3000 }]);
    assert_eq!(s.get_escrow(id).unwrap().status, EscrowStatus::Cancelled);
    assert_eq!(
        s.events().last(),
        Some(&EscrowEvent::Cancelled(EscrowCancelled {
            escrow_id: id,
            refund_to_client: 3000,
            refund_to_freelancer: 0,
        }))
    );
}

#[test]
fn mutual_cancellation_after_release_refunds_the_rest() {
    let (mut s, id) = funded(None);
    s.release_milestone(payer(), id, 0, 3000).unwrap();
    s.request_cancel(payee(), id, 2000).unwrap();
    let ts = s.request_cancel(payer(), id, 2000).unwrap();
    assert_eq!(ts, vec![Transfer { to: payer(), amount: 2000 }]);
    let e = s.get_escrow(id).unwrap();
    assert_eq!(e.status, EscrowStatus::Cancelled);
    assert!(e.milestones[0].released);
    assert_eq!(e.cancel_requested_by, None);
    assert_eq!(
        s.events().last(),
        Some(&EscrowEvent::Cancelled(EscrowCancelled {
            escrow_id: id,
            refund_to_client: 2000,
            refund_to_freelancer: 1000,
        }))
    );
}

#[test]
fn repeated_request_by_same_party_changes_nothing() {
    let (mut s, id) = funded(None);
    s.request_cancel(payer(), id, 3000).unwrap();
    let before = s.events().len();
    assert_eq!(s.request_cancel(payer(), id, 3000), Ok(vec![]));
    assert_eq!(s.events().len(), before);
    let e = s.get_escrow(id).unwrap();
    assert_eq!(e.status, EscrowStatus::Disputed);
    assert_eq!(e.cancel_requested_by, Some(payer()));
}

#[test]
fn cancel_request_by_stranger_is_unauthorized() {
    let (mut s, id) = funded(None);
    assert_eq!(s.request_cancel(stranger(), id, 3000), Err(EscrowError::Unauthorized));
}

#[test]
fn cancel_request_from_created_disputes_without_payment() {
    let (mut s, id) = created(None);
    s.request_cancel(payee(), id, 0).unwrap();
    assert_eq!(
        s.events().last(),
        Some(&EscrowEvent::CancelRequested(CancelRequested { escrow_id: id, requested_by: payee() }))
    );
    assert_eq!(s.get_escrow(id).unwrap().status, EscrowStatus::Disputed);
    assert_eq!(s.request_cancel(payer(), id, 0), Ok(vec![]));
    assert_eq!(s.get_escrow(id).unwrap().status, EscrowStatus::Cancelled);
}

#[test]
fn scenario_approve_cancel() {
    let (mut s, id) = funded(None);
    s.request_cancel(payer(), id, 3000).unwrap();
    assert_eq!(s.approve_cancel(stranger(), id, 3000), Err(EscrowError::Unauthorized));
    assert_eq!(s.approve_cancel(payer(), id, 3000), Err(EscrowError::Unauthorized));
    let ts = s.approve_cancel(payee(), id, 3000).unwrap();
    assert_eq!(ts, vec![Transfer { to: payer(), amount: 3000 }]);
    assert_eq!(s.get_escrow(id).unwrap().status, EscrowStatus::Cancelled);
}

#[test]
fn approve_cancel_requested_by_payee_needs_payer() {
    let (mut s, id) = funded(None);
    s.request_cancel(payee(), id, 3000).unwrap();
    assert_eq!(s.approve_cancel(payee(), id, 3000), Err(EscrowError::Unauthorized));
    assert!(s.approve_cancel(payer(), id, 3000).is_ok());
}

#[test]
fn approve_cancel_without_request_is_invalid_status() {
    let (mut s, id) = funded(None);
    assert_eq!(s.approve_cancel(payee(), id, 3000), Err(EscrowError::InvalidStatus));
}

#[test]
fn approve_cancel_beyond_custody_changes_nothing() {
    let (mut s, id) = funded(None);
    s.request_cancel(payer(), id, 3000).unwrap();
    assert_eq!(s.approve_cancel(payee(), id, 2999), Err(EscrowError::InsufficientFunds));
    assert_eq!(s.get_escrow(id).unwrap().status, EscrowStatus::Disputed);
}

#[test]
fn scenario_arbiter_settlement() {
    let (mut s, id) = funded(Some(arbiter()));
    s.request_cancel(payer(), id, 3000).unwrap();
    assert_eq!(
        s.resolve_dispute_by_arbiter(arbiter(), id, 1000, 2500, 3000),
        Err(EscrowError::InvalidAmount)
    );
    assert_eq!(
        s.resolve_dispute_by_arbiter(payee(), id, 1000, 2000, 3000),
        Err(EscrowError::Unauthorized)
    );
    let ts = s.resolve_dispute_by_arbiter(arbiter(), id, 1000, 2000, 3000).unwrap();
    assert_eq!(
        ts,
        vec![Transfer { to: payee(), amount: 1000 }, Transfer { to: payer(), amount: 2000 }]
    );
    assert_eq!(s.get_escrow(id).unwrap().status, EscrowStatus::Cancelled);
    assert_eq!(
        s.events().last(),
        Some(&EscrowEvent::Resolved(DisputeResolved {
            escrow_id: id,
            freelancer_share: 1000,
            client_refund: 2000,
        }))
    );
}

#[test]
fn arbiter_settlement_skips_zero_shares() {
    let (mut s, id) = funded(Some(arbiter()));
    s.request_cancel(payee(), id, 3000).unwrap();
    let ts = s.resolve_dispute_by_arbiter(arbiter(), id, 3000, 0, 3000).unwrap();
    assert_eq!(ts, vec![Transfer { to: payee(), amount: 3000 }]);
}

#[test]
fn arbiter_split_that_overflows_is_invalid_amount() {
    let (mut s, id) = funded(Some(arbiter()));
    s.request_cancel(payer(), id, 3000).unwrap();
    assert_eq!(
        s.resolve_dispute_by_arbiter(arbiter(), id, u128::MAX, 3000, 3000),
        Err(EscrowError::InvalidAmount)
    );
}

#[test]
fn settlement_without_arbiter_is_invalid_arbiter() {
    let (mut s, id) = funded(None);
    s.request_cancel(payer(), id, 3000).unwrap();
    assert_eq!(
        s.resolve_dispute_by_arbiter(arbiter(), id, 1000, 2000, 3000),
        Err(EscrowError::InvalidArbiter)
    );
}

#[test]
fn settlement_outside_dispute_is_invalid_status() {
    let (mut s, id) = funded(Some(arbiter()));
    assert_eq!(
        s.resolve_dispute_by_arbiter(arbiter(), id, 1000, 2000, 3000),
        Err(EscrowError::InvalidStatus)
    );
}

#[test]
fn settlement_beyond_custody_changes_nothing() {
    let (mut s, id) = funded(Some(arbiter()));
    s.request_cancel(payer(), id, 3000).unwrap();
    assert_eq!(
        s.resolve_dispute_by_arbiter(arbiter(), id, 1000, 2000, 2999),
        Err(EscrowError::InsufficientFunds)
    );
    assert_eq!(s.get_escrow(id).unwrap().status, EscrowStatus::Disputed);
}

#[test]
fn scenario_unknown_escrow() {
    let mut s = EscrowMultiRelease::new();
    assert!(s.get_escrow(9).is_none());
    assert!(s.get_milestones(9).is_empty());
    assert!(s.get_escrows_by_client(payer()).is_empty());
    assert!(s.get_escrows_by_freelancer(payee()).is_empty());
    assert_eq!(s.fund_escrow(payer(), 9, 10), Err(EscrowError::EscrowNotFound));
    assert_eq!(s.release_milestone(payer(), 9, 0, 10), Err(EscrowError::EscrowNotFound));
    assert_eq!(s.request_cancel(payer(), 9, 10), Err(EscrowError::EscrowNotFound));
    assert_eq!(s.approve_cancel(payer(), 9, 10), Err(EscrowError::EscrowNotFound));
    assert_eq!(
        s.resolve_dispute_by_arbiter(arbiter(), 9, 0, 0, 10),
        Err(EscrowError::EscrowNotFound)
    );
}

#[test]
fn completed_escrow_admits_no_operation() {
    let (mut s, id) = funded(Some(arbiter()));
    s.release_milestone(payer(), id, 0, 3000).unwrap();
    s.request_cancel(payer(), id, 2000).unwrap();
    s.release_milestone(payer(), id, 1, 2000).unwrap();
    let e = s.get_escrow(id).unwrap();
    assert_eq!(e.status, EscrowStatus::Completed);
    assert_eq!(e.cancel_requested_by, None);
    let before = s.events().len();
    assert_eq!(s.fund_escrow(payer(), id, 3000), Err(EscrowError::InvalidStatus));
    assert_eq!(s.request_cancel(payee(), id, 3000), Err(EscrowError::InvalidStatus));
    assert_eq!(s.approve_cancel(payee(), id, 3000), Err(EscrowError::InvalidStatus));
    assert_eq!(
        s.resolve_dispute_by_arbiter(arbiter(), id, 3000, 0, 3000),
        Err(EscrowError::InvalidStatus)
    );
    assert_eq!(s.events().len(), before);
    assert_eq!(s.get_escrow(id).unwrap().status, EscrowStatus::Completed);
}

#[test]
fn cancelled_escrow_admits_no_operation() {
    let (mut s, id) = funded(None);
    s.request_cancel(payer(), id, 3000).unwrap();
    s.approve_cancel(payee(), id, 3000).unwrap();
    let before = s.events().len();
    assert_eq!(s.approve_cancel(payee(), id, 3000), Err(EscrowError::InvalidStatus));
    assert_eq!(s.request_cancel(payer(), id, 3000), Err(EscrowError::InvalidStatus));
    assert_eq!(s.release_milestone(payer(), id, 0, 3000), Err(EscrowError::InvalidStatus));
    assert_eq!(s.fund_escrow(payer(), id, 3000), Err(EscrowError::InvalidStatus));
    assert_eq!(s.events().len(), before);
    let e = s.get_escrow(id).unwrap();
    assert_eq!(e.status, EscrowStatus::Cancelled);
    assert_eq!(e.deposited, 3000);
}

#[test]
fn release_in_dispute_is_allowed() {
    let (mut s, id) = funded(None);
    s.request_cancel(payee(), id, 3000).unwrap();
    let ts = s.release_milestone(payer(), id, 1, 3000).unwrap();
    assert_eq!(ts, vec![Transfer { to: payee(), amount: 2000 }]);
    let e = s.get_escrow(id).unwrap();
    assert_eq!(e.status, EscrowStatus::Disputed);
    assert!(e.milestones[1].released);
}

#[test]
fn payouts_over_a_lifetime_stay_within_deposit() {
    let (mut s, id) = funded(None);
    let mut paid = 0u128;
    paid += sum(&s.release_milestone(payer(), id, 0, 3000).unwrap());
    paid += sum(&s.request_cancel(payer(), id, 2000).unwrap());
    paid += sum(&s.approve_cancel(payee(), id, 2000).unwrap());
    assert_eq!(paid, 3000);
    assert!(paid <= s.get_escrow(id).unwrap().deposited);
}

#[test]
fn arbiter_split_after_release_pays_beyond_deposit() {
    let (mut s, id) = funded(Some(arbiter()));
    let mut paid = sum(&s.release_milestone(payer(), id, 0, 3000).unwrap());
    s.request_cancel(payer(), id, 2000).unwrap();
    paid += sum(&s.resolve_dispute_by_arbiter(arbiter(), id, 1000, 2000, 3000).unwrap());
    assert_eq!(paid, 4000);
}

#[test]
fn deposit_is_zero_or_total_throughout() {
    let (mut s, id) = created(None);
    let check = |s: &EscrowMultiRelease| {
        let e = s.get_escrow(id).unwrap();
        assert!(e.deposited == 0 || e.deposited == e.total_amount);
    };
    check(&s);
    s.fund_escrow(payer(), id, 4000).unwrap();
    check(&s);
    s.release_milestone(payer(), id, 0, 4000).unwrap();
    check(&s);
    s.request_cancel(payer(), id, 2000).unwrap();
    s.request_cancel(payee(), id, 2000).unwrap();
    check(&s);
}

#[test]
fn index_lists_escrows_per_party_in_creation_order() {
    let mut s = EscrowMultiRelease::new();
    let a = s.create_escrow(payer(), payee(), ms(&[1]), None, 0).unwrap();
    let b = s.create_escrow(payee(), stranger(), ms(&[2]), None, 0).unwrap();
    let c = s.create_escrow(payer(), stranger(), ms(&[3]), None, 0).unwrap();
    assert_eq!(s.get_escrows_by_client(payer()), vec![a, c]);
    assert_eq!(s.get_escrows_by_client(payee()), vec![b]);
    assert_eq!(s.get_escrows_by_freelancer(stranger()), vec![b, c]);
    assert_eq!(s.get_escrows_by_freelancer(payee()), vec![a]);
    s.fund_escrow(payer(), a, 1).unwrap();
    s.release_milestone(payer(), a, 0, 1).unwrap();
    assert_eq!(s.get_escrows_by_client(payer()), vec![a, c]);
}

#[test]
fn milestones_come_back_as_created() {
    let (s, id) = created(None);
    let m = s.get_milestones(id);
    assert_eq!(m.len(), 2);
    assert_eq!(m[1].amount, 2000);
    assert_eq!(m[1].description, "step 1");
    assert!(!m[0].released);
}

#[test]
fn account_equality_compares_every_byte() {
    let mut x = [9u8; 32];
    let y = AccountId(x);
    x[31] = 8;
    assert_ne!(AccountId(x), y);
    assert_eq!(AccountId([9u8; 32]), y);
    assert_eq!(AccountId::repeat_byte(9), y);
}
