use vstd::prelude::*;

use crate::account::AccountId;
use crate::lifecycle::{
    approve_cancel_error, cancel_event, cancel_transfers, cancelled, create_error, created,
    dispute_opened, fund_error, funded, refund, release_error, released, reports,
    request_cancel_error, resolve_error, resolve_transfers,
};
use crate::milestones::{check_milestones, every_released, sum_amounts, sum_released};
use crate::types::{
    amount_sum, Balance, CancelRequested, DisputeResolved, Escrow, EscrowCancelled,
    EscrowCreated, EscrowError, EscrowEvent, EscrowFunded, EscrowStatus, Milestone,
    MilestoneReleased, Transfer,
};

verus! {

/// What an accepted operation on one escrow produces: the record to store in place
/// of the old one, the payments the host must carry out, in order, and the event to
/// log, if any.
#[derive(Debug)]
pub struct Step {
    pub escrow: Escrow,
    pub transfers: Vec<Transfer>,
    pub event: Option<EscrowEvent>,
}

impl Escrow {
    /// Validate `milestones` and build escrow `id`, paid by `caller` to `freelancer`,
    /// with optional `arbiter`, created at `now`.
    pub fn create(
        id: u64,
        caller: AccountId,
        freelancer: AccountId,
        milestones: Vec<Milestone>,
        arbiter: Option<AccountId>,
        now: u64,
    ) -> (r: Result<Step, EscrowError>)
        requires
            amount_sum(milestones@) <= Balance::MAX,
        ensures
            reports(r, create_error(milestones@)),
            r matches Ok(s) ==> {
                &&& s.escrow@ == created(id, caller, freelancer, arbiter, milestones@, now)
                &&& s.transfers@.len() == 0
                &&& s.event == Some(
                    EscrowEvent::Created(
                        EscrowCreated {
                            escrow_id: id,
                            client: caller,
                            freelancer,
                            arbiter,
                            total_amount: amount_sum(milestones@) as Balance,
                        },
                    ),
                )
            },
    {
        if milestones.len() == 0 {
            return Err(EscrowError::EmptyMilestones);
        }
        let total_amount = sum_amounts(&milestones);
        if total_amount == 0 {
            return Err(EscrowError::ZeroAmount);
        }
        match check_milestones(&milestones) {
            Some(err) => {
                return Err(err);
            },
            None => {},
        }
        let escrow = Escrow {
            id,
            client: caller,
            freelancer,
            arbiter,
            total_amount,
            deposited: 0,
            milestones,
            status: EscrowStatus::Created,
            cancel_requested_by: None,
            created_at: now,
        };
        let event = EscrowEvent::Created(
            EscrowCreated { escrow_id: id, client: caller, freelancer, arbiter, total_amount },
        );
        Ok(Step { escrow, transfers: Vec::new(), event: Some(event) })
    }

    /// Fund this escrow with `transferred` attached to the call.
    pub fn fund(&self, caller: AccountId, transferred: Balance) -> (r: Result<Step, EscrowError>)
        ensures
            reports(r, fund_error(self@, caller, transferred)),
            r matches Ok(s) ==> {
                &&& s.escrow@ == funded(self@)
                &&& s.transfers@.len() == 0
                &&& s.event == Some(
                    EscrowEvent::Funded(EscrowFunded { escrow_id: self.id, amount: transferred }),
                )
            },
    {
        if self.client != caller {
            return Err(EscrowError::Unauthorized);
        }
        if self.status != EscrowStatus::Created {
            return Err(EscrowError::InvalidStatus);
        }
        if transferred < self.total_amount {
            return Err(EscrowError::InsufficientFunds);
        }
        let mut e = self.clone();
        e.deposited = e.total_amount;
        e.status = EscrowStatus::Funded;
        proof {
            assert(e@ == funded(self@));
        }
        let event = EscrowEvent::Funded(EscrowFunded { escrow_id: self.id, amount: transferred });
        Ok(Step { escrow: e, transfers: Vec::new(), event: Some(event) })
    }

    /// Release milestone `milestone_id` of this escrow to the payee, when custody can
    /// pay out `custody`.
    pub fn release_milestone(&self, caller: AccountId, milestone_id: u32, custody: Balance) -> (r:
        Result<Step, EscrowError>)
        ensures
            reports(r, release_error(self@, caller, milestone_id, custody)),
            r matches Ok(s) ==> {
                let amount = self@.milestones[milestone_id as int].amount;
                &&& s.escrow@ == released(self@, milestone_id as int)
                &&& s.transfers@ == seq![Transfer { to: self.freelancer, amount }]
                &&& s.event == Some(
                    EscrowEvent::Released(
                        MilestoneReleased { escrow_id: self.id, milestone_id, amount },
                    ),
                )
            },
    {
        if self.client != caller {
            return Err(EscrowError::Unauthorized);
        }
        if self.status != EscrowStatus::Funded && self.status != EscrowStatus::Disputed {
            return Err(EscrowError::InvalidStatus);
        }
        if milestone_id as usize >= self.milestones.len() {
            return Err(EscrowError::MilestoneNotFound);
        }
        let k = milestone_id as usize;
        if self.milestones[k].released {
            return Err(EscrowError::MilestoneAlreadyReleased);
        }
        let amount = self.milestones[k].amount;
        if amount > custody {
            return Err(EscrowError::InsufficientFunds);
        }
        let mut e = self.clone();
        let mut m = e.milestones[k].clone();
        m.released = true;
        e.milestones.set(k, m);
        if every_released(&e.milestones) {
            e.status = EscrowStatus::Completed;
            e.cancel_requested_by = None;
        }
        proof {
            assert(e@ =~= released(self@, k as int));
        }
        let event = EscrowEvent::Released(
            MilestoneReleased { escrow_id: self.id, milestone_id, amount },
        );
        Ok(Step { escrow: e, transfers: vec![Transfer { to: self.freelancer, amount }], event: Some(event) })
    }

    /// Cancel this escrow, both parties agreeing: the payer gets back the deposit less
    /// what was released, when custody can pay it.
    fn settle_cancellation(&self, custody: Balance) -> (r: Result<Step, EscrowError>)
        requires
            amount_sum(self@.milestones) <= Balance::MAX,
        ensures
            reports(
                r,
                if refund(self@) > custody {
                    Some(EscrowError::InsufficientFunds)
                } else {
                    None
                },
            ),
            r matches Ok(s) ==> {
                &&& s.escrow@ == cancelled(self@)
                &&& s.transfers@ == cancel_transfers(self@)
                &&& s.event == Some(cancel_event(self.id, self@))
            },
    {
        let released_amount = sum_released(&self.milestones);
        let unreleased = if self.deposited >= released_amount {
            self.deposited - released_amount
        } else {
            0
        };
        if unreleased > custody {
            return Err(EscrowError::InsufficientFunds);
        }
        let mut e = self.clone();
        e.status = EscrowStatus::Cancelled;
        e.cancel_requested_by = None;
        proof {
            assert(e@ =~= cancelled(self@));
        }
        let mut transfers: Vec<Transfer> = Vec::new();
        if unreleased > 0 {
            transfers.push(Transfer { to: self.client, amount: unreleased });
        }
        proof {
            assert(transfers@ =~= cancel_transfers(self@));
        }
        let event = EscrowEvent::Cancelled(
            EscrowCancelled {
                escrow_id: self.id,
                refund_to_client: unreleased,
                refund_to_freelancer: released_amount,
            },
        );
        Ok(Step { escrow: e, transfers, event: Some(event) })
    }

    /// Ask, as `caller`, to cancel this escrow. A first request disputes it; a request
    /// by the other party cancels it; a repeated request by the same party changes
    /// nothing and logs nothing.
    pub fn request_cancel(&self, caller: AccountId, custody: Balance) -> (r: Result<
        Step,
        EscrowError,
    >)
        requires
            amount_sum(self@.milestones) <= Balance::MAX,
        ensures
            reports(r, request_cancel_error(self@, caller, custody)),
            r matches Ok(s) ==> match self@.cancel_requested_by {
                None => {
                    &&& s.escrow@ == dispute_opened(self@, caller)
                    &&& s.transfers@.len() == 0
                    &&& s.event == Some(
                        EscrowEvent::CancelRequested(
                            CancelRequested { escrow_id: self.id, requested_by: caller },
                        ),
                    )
                },
                Some(p) => if p == caller {
                    &&& s.escrow@ == self@
                    &&& s.transfers@.len() == 0
                    &&& s.event is None
                } else {
                    &&& s.escrow@ == cancelled(self@)
                    &&& s.transfers@ == cancel_transfers(self@)
                    &&& s.event == Some(cancel_event(self.id, self@))
                },
            },
    {
        if self.client != caller && self.freelancer != caller {
            return Err(EscrowError::Unauthorized);
        }
        if self.status == EscrowStatus::Completed || self.status == EscrowStatus::Cancelled {
            return Err(EscrowError::InvalidStatus);
        }
        match self.cancel_requested_by {
            Some(previous) => {
                if previous != caller {
                    self.settle_cancellation(custody)
                } else {
                    Ok(Step { escrow: self.clone(), transfers: Vec::new(), event: None })
                }
            },
            None => {
                let mut e = self.clone();
                e.cancel_requested_by = Some(caller);
                e.status = EscrowStatus::Disputed;
                proof {
                    assert(e@ =~= dispute_opened(self@, caller));
                }
                let event = EscrowEvent::CancelRequested(
                    CancelRequested { escrow_id: self.id, requested_by: caller },
                );
                Ok(Step { escrow: e, transfers: Vec::new(), event: Some(event) })
            },
        }
    }

    /// Approve, as `caller`, the pending cancellation of this escrow.
    pub fn approve_cancel(&self, caller: AccountId, custody: Balance) -> (r: Result<
        Step,
        EscrowError,
    >)
        requires
            amount_sum(self@.milestones) <= Balance::MAX,
        ensures
            reports(r, approve_cancel_error(self@, caller, custody)),
            r matches Ok(s) ==> {
                &&& s.escrow@ == cancelled(self@)
                &&& s.transfers@ == cancel_transfers(self@)
                &&& s.event == Some(cancel_event(self.id, self@))
            },
    {
        let requested_by = match self.cancel_requested_by {
            Some(p) => p,
            None => {
                return Err(EscrowError::InvalidStatus);
            },
        };
        if requested_by == self.client {
            if caller != self.freelancer {
                return Err(EscrowError::Unauthorized);
            }
        } else if requested_by == self.freelancer {
            if caller != self.client {
                return Err(EscrowError::Unauthorized);
            }
        } else {
            return Err(EscrowError::Unauthorized);
        }
        self.settle_cancellation(custody)
    }

    /// Settle this disputed escrow as its arbiter: `freelancer_share` to the payee and
    /// `client_refund` to the payer.
    pub fn resolve_dispute_by_arbiter(
        &self,
        caller: AccountId,
        freelancer_share: Balance,
        client_refund: Balance,
        custody: Balance,
    ) -> (r: Result<Step, EscrowError>)
        ensures
            reports(r, resolve_error(self@, caller, freelancer_share, client_refund, custody)),
            r matches Ok(s) ==> {
                &&& s.escrow@ == cancelled(self@)
                &&& s.transfers@ == resolve_transfers(self@, freelancer_share, client_refund)
                &&& s.event == Some(
                    EscrowEvent::Resolved(
                        DisputeResolved { escrow_id: self.id, freelancer_share, client_refund },
                    ),
                )
            },
    {
        let arbiter = match self.arbiter {
            Some(a) => a,
            None => {
                return Err(EscrowError::InvalidArbiter);
            },
        };
        if arbiter != caller {
            return Err(EscrowError::Unauthorized);
        }
        if self.status != EscrowStatus::Disputed {
            return Err(EscrowError::InvalidStatus);
        }
        if freelancer_share > self.deposited || client_refund != self.deposited - freelancer_share {
            return Err(EscrowError::InvalidAmount);
        }
        if self.deposited > custody {
            return Err(EscrowError::InsufficientFunds);
        }
        let mut e = self.clone();
        e.status = EscrowStatus::Cancelled;
        e.cancel_requested_by = None;
        proof {
            assert(e@ =~= cancelled(self@));
        }
        let mut transfers: Vec<Transfer> = Vec::new();
        if freelancer_share > 0 {
            transfers.push(Transfer { to: self.freelancer, amount: freelancer_share });
        }
        if client_refund > 0 {
            transfers.push(Transfer { to: self.client, amount: client_refund });
        }
        proof {
            assert(transfers@ =~= resolve_transfers(self@, freelancer_share, client_refund));
        }
        let event = EscrowEvent::Resolved(
            DisputeResolved { escrow_id: self.id, freelancer_share, client_refund },
        );
        Ok(Step { escrow: e, transfers, event: Some(event) })
    }
}

} // verus!
