use vstd::prelude::*;

use crate::account::AccountId;
use crate::types::{
    all_released, amount_sum, ids_sequential, none_released, released_sum, Balance, EscrowCancelled,
    EscrowError, EscrowEvent, EscrowStatus, EscrowView, Milestone, Transfer,
};

verus! {

/// The invariant of a stored escrow record kept at position `id`.
pub open spec fn record_wf(e: EscrowView, id: int) -> bool {
    &&& e.id == id
    &&& e.milestones.len() > 0
    &&& ids_sequential(e.milestones)
    &&& e.total_amount == amount_sum(e.milestones)
    &&& e.total_amount > 0
    &&& e.deposited == 0 || e.deposited == e.total_amount
    &&& e.status == EscrowStatus::Created ==> e.deposited == 0 && none_released(e.milestones)
    &&& e.status == EscrowStatus::Funded ==> e.deposited == e.total_amount
    &&& e.status == EscrowStatus::Completed ==> all_released(e.milestones)
    &&& e.cancel_requested_by is Some <==> e.status == EscrowStatus::Disputed
    &&& e.cancel_requested_by matches Some(a) ==> a == e.client || a == e.freelancer
}

/// How a stored record may change between two moments: identities, amounts and
/// milestone contents stay, a released milestone stays released, a deposit once made
/// stays, and a terminal record does not change at all.
pub open spec fn record_evolves(a: EscrowView, b: EscrowView) -> bool {
    &&& a.status.is_terminal() ==> b == a
    &&& b.id == a.id
    &&& b.client == a.client
    &&& b.freelancer == a.freelancer
    &&& b.arbiter == a.arbiter
    &&& b.total_amount == a.total_amount
    &&& b.created_at == a.created_at
    &&& a.deposited != 0 ==> b.deposited == a.deposited
    &&& b.milestones.len() == a.milestones.len()
    &&& forall|i: int|
        0 <= i < a.milestones.len() ==> {
            &&& (#[trigger] b.milestones[i]).id == a.milestones[i].id
            &&& b.milestones[i].amount == a.milestones[i].amount
            &&& b.milestones[i].description == a.milestones[i].description
            &&& a.milestones[i].released ==> b.milestones[i].released
        }
}

/// `r` is the error `err` when there is one, and a success otherwise.
pub open spec fn reports<T>(r: Result<T, EscrowError>, err: Option<EscrowError>) -> bool {
    match err {
        Some(x) => r == Err::<T, EscrowError>(x),
        None => r is Ok,
    }
}

/// The error that creation reports for `ms`, if any.
pub open spec fn create_error(ms: Seq<Milestone>) -> Option<EscrowError> {
    if ms.len() == 0 {
        Some(EscrowError::EmptyMilestones)
    } else if amount_sum(ms) == 0 {
        Some(EscrowError::ZeroAmount)
    } else {
        crate::milestones::milestone_error(ms, 0)
    }
}

/// The record that creation stores.
pub open spec fn created(
    id: u64,
    client: AccountId,
    freelancer: AccountId,
    arbiter: Option<AccountId>,
    ms: Seq<Milestone>,
    now: u64,
) -> EscrowView {
    EscrowView {
        id,
        client,
        freelancer,
        arbiter,
        total_amount: amount_sum(ms) as Balance,
        deposited: 0,
        milestones: ms,
        status: EscrowStatus::Created,
        cancel_requested_by: None,
        created_at: now,
    }
}

/// The error that funding `e` with `transferred` attached reports, if any.
pub open spec fn fund_error(e: EscrowView, caller: AccountId, transferred: Balance) -> Option<
    EscrowError,
> {
    if e.client != caller {
        Some(EscrowError::Unauthorized)
    } else if e.status != EscrowStatus::Created {
        Some(EscrowError::InvalidStatus)
    } else if transferred < e.total_amount {
        Some(EscrowError::InsufficientFunds)
    } else {
        None
    }
}

/// `e` once funded.
pub open spec fn funded(e: EscrowView) -> EscrowView {
    EscrowView { deposited: e.total_amount, status: EscrowStatus::Funded, ..e }
}

/// The error that releasing milestone `mid` of `e` reports, if any, when custody
/// can pay out `custody`.
pub open spec fn release_error(e: EscrowView, caller: AccountId, mid: u32, custody: Balance) -> Option<
    EscrowError,
> {
    if e.client != caller {
        Some(EscrowError::Unauthorized)
    } else if e.status != EscrowStatus::Funded && e.status != EscrowStatus::Disputed {
        Some(EscrowError::InvalidStatus)
    } else if mid >= e.milestones.len() {
        Some(EscrowError::MilestoneNotFound)
    } else if e.milestones[mid as int].released {
        Some(EscrowError::MilestoneAlreadyReleased)
    } else if e.milestones[mid as int].amount > custody {
        Some(EscrowError::InsufficientFunds)
    } else {
        None
    }
}

/// The milestones of `e` with milestone `mid` marked released.
pub open spec fn mark_released(ms: Seq<Milestone>, mid: int) -> Seq<Milestone> {
    ms.update(mid, Milestone { released: true, ..ms[mid] })
}

/// `e` after milestone `mid` was released: it completes when no milestone is left.
pub open spec fn released(e: EscrowView, mid: int) -> EscrowView {
    let ms = mark_released(e.milestones, mid);
    if all_released(ms) {
        EscrowView {
            milestones: ms,
            status: EscrowStatus::Completed,
            cancel_requested_by: None,
            ..e
        }
    } else {
        EscrowView { milestones: ms, ..e }
    }
}

/// Whether `caller` is the payer or the payee of `e`.
pub open spec fn is_party(e: EscrowView, caller: AccountId) -> bool {
    e.client == caller || e.freelancer == caller
}

/// The error that a cancellation request on `e` reports, if any.
pub open spec fn request_cancel_error(e: EscrowView, caller: AccountId, custody: Balance) -> Option<
    EscrowError,
> {
    if !is_party(e, caller) {
        Some(EscrowError::Unauthorized)
    } else if e.status.is_terminal() {
        Some(EscrowError::InvalidStatus)
    } else if e.cancel_requested_by matches Some(p) && p != caller && refund(e) > custody {
        Some(EscrowError::InsufficientFunds)
    } else {
        None
    }
}

/// `e` after `caller` asked first to cancel it.
pub open spec fn dispute_opened(e: EscrowView, caller: AccountId) -> EscrowView {
    EscrowView { status: EscrowStatus::Disputed, cancel_requested_by: Some(caller), ..e }
}

/// What a cancellation pays back to the payer: the deposit less what was released,
/// never below zero.
pub open spec fn refund(e: EscrowView) -> int {
    if e.deposited >= released_sum(e.milestones) {
        e.deposited - released_sum(e.milestones)
    } else {
        0
    }
}

/// The payments of a cancellation: the refund to the payer, when there is one.
pub open spec fn cancel_transfers(e: EscrowView) -> Seq<Transfer> {
    if refund(e) > 0 {
        seq![Transfer { to: e.client, amount: refund(e) as Balance }]
    } else {
        seq![]
    }
}

/// The event of a cancellation of escrow `id`.
pub open spec fn cancel_event(id: u64, e: EscrowView) -> EscrowEvent {
    EscrowEvent::Cancelled(
        EscrowCancelled {
            escrow_id: id,
            refund_to_client: refund(e) as Balance,
            refund_to_freelancer: released_sum(e.milestones) as Balance,
        },
    )
}

/// `e` once cancelled or settled.
pub open spec fn cancelled(e: EscrowView) -> EscrowView {
    EscrowView { status: EscrowStatus::Cancelled, cancel_requested_by: None, ..e }
}

/// The error that approving the pending cancellation of `e` reports, if any.
pub open spec fn approve_cancel_error(e: EscrowView, caller: AccountId, custody: Balance) -> Option<
    EscrowError,
> {
    match e.cancel_requested_by {
        None => Some(EscrowError::InvalidStatus),
        Some(p) => {
            if p == e.client && caller != e.freelancer {
                Some(EscrowError::Unauthorized)
            } else if p != e.client && p == e.freelancer && caller != e.client {
                Some(EscrowError::Unauthorized)
            } else if p != e.client && p != e.freelancer {
                Some(EscrowError::Unauthorized)
            } else if refund(e) > custody {
                Some(EscrowError::InsufficientFunds)
            } else {
                None
            }
        },
    }
}

/// The error that the arbiter's split of `e` reports, if any.
pub open spec fn resolve_error(
    e: EscrowView,
    caller: AccountId,
    freelancer_share: Balance,
    client_refund: Balance,
    custody: Balance,
) -> Option<EscrowError> {
    match e.arbiter {
        None => Some(EscrowError::InvalidArbiter),
        Some(a) => {
            if a != caller {
                Some(EscrowError::Unauthorized)
            } else if e.status != EscrowStatus::Disputed {
                Some(EscrowError::InvalidStatus)
            } else if freelancer_share + client_refund != e.deposited {
                Some(EscrowError::InvalidAmount)
            } else if e.deposited > custody {
                Some(EscrowError::InsufficientFunds)
            } else {
                None
            }
        },
    }
}

/// The payments of the arbiter's split: each share that is not zero, payee first.
pub open spec fn resolve_transfers(
    e: EscrowView,
    freelancer_share: Balance,
    client_refund: Balance,
) -> Seq<Transfer> {
    let to_freelancer = if freelancer_share > 0 {
        seq![Transfer { to: e.freelancer, amount: freelancer_share }]
    } else {
        seq![]
    };
    let to_client = if client_refund > 0 {
        seq![Transfer { to: e.client, amount: client_refund }]
    } else {
        seq![]
    };
    to_freelancer + to_client
}

/// Ids of the escrows in `rs` whose payer is `a`, in creation order.
pub open spec fn ids_of_client(rs: Seq<EscrowView>, a: AccountId) -> Seq<u64>
    decreases rs.len(),
{
    if rs.len() == 0 {
        seq![]
    } else if rs.last().client == a {
        ids_of_client(rs.drop_last(), a).push(rs.last().id)
    } else {
        ids_of_client(rs.drop_last(), a)
    }
}

/// Ids of the escrows in `rs` whose payee is `a`, in creation order.
pub open spec fn ids_of_freelancer(rs: Seq<EscrowView>, a: AccountId) -> Seq<u64>
    decreases rs.len(),
{
    if rs.len() == 0 {
        seq![]
    } else if rs.last().freelancer == a {
        ids_of_freelancer(rs.drop_last(), a).push(rs.last().id)
    } else {
        ids_of_freelancer(rs.drop_last(), a)
    }
}

} // verus!
