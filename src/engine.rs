use vstd::prelude::*;

use crate::account::AccountId;
use crate::lifecycle::{
    approve_cancel_error, cancel_event, cancel_transfers, cancelled, create_error, created,
    dispute_opened, fund_error, funded, ids_of_client, ids_of_freelancer, record_evolves,
    record_wf, release_error, released, reports, request_cancel_error, resolve_error,
    resolve_transfers,
};
use crate::milestones::{
    lemma_no_milestone_error, lemma_none_released, lemma_prefix_sums, lemma_release_one,
};
use crate::transitions::Step;
use crate::types::{
    amount_sum, ids_sequential, none_released, released_sum, transfer_sum, Balance,
    CancelRequested, DisputeResolved, Escrow, EscrowCreated, EscrowError, EscrowEvent,
    EscrowFunded, EscrowStatus, EscrowView, Milestone, MilestoneReleased, Transfer,
};

verus! {

/// The escrow engine: the store of escrow records, keyed by id, and the log of
/// lifecycle events.
///
/// Every operation takes the calling account from the host. An operation that pays
/// out returns the transfers that the host must carry out, and takes `custody`,
/// the value that the custodian can pay out during the call: a payment beyond it
/// fails the whole operation with `InsufficientFunds`. A refused operation changes
/// nothing.
pub struct EscrowMultiRelease {
    /// Escrow `i` is stored at position `i`; records are never removed.
    escrows: Vec<Escrow>,
    /// Append-only log of lifecycle events.
    events: Vec<EscrowEvent>,
    /// For each escrow, the value paid out of custody for it so far.
    disbursed: Ghost<Seq<int>>,
    /// For each escrow, whether a payment was made for it that its deposit does not
    /// back: a milestone released before funding, or an arbiter's split after a
    /// milestone release.
    unbacked: Ghost<Seq<bool>>,
}

/// `log` with `event` appended, if there is one.
pub open spec fn logged(log: Seq<EscrowEvent>, event: Option<EscrowEvent>) -> Seq<EscrowEvent> {
    match event {
        Some(ev) => log.push(ev),
        None => log,
    }
}

impl EscrowMultiRelease {
    /// The stored records, by id.
    pub closed spec fn records(&self) -> Seq<EscrowView> {
        self.escrows@.map_values(|e: Escrow| e@)
    }

    /// The events emitted so far, oldest first.
    pub closed spec fn event_log(&self) -> Seq<EscrowEvent> {
        self.events@
    }

    /// For each escrow, the value paid out of custody for it so far.
    pub closed spec fn disbursed(&self) -> Seq<int> {
        self.disbursed@
    }

    /// For each escrow, whether a payment was made that its deposit does not back.
    pub closed spec fn unbacked(&self) -> Seq<bool> {
        self.unbacked@
    }

    /// The engine's invariant.
    pub closed spec fn wf(&self) -> bool {
        &&& self.escrows@.len() <= u64::MAX
        &&& self.disbursed@.len() == self.escrows@.len()
        &&& self.unbacked@.len() == self.escrows@.len()
        &&& forall|i: int| 0 <= i < self.escrows@.len() ==> record_wf(#[trigger] self.records()[i], i)
        &&& forall|i: int|
            0 <= i < self.escrows@.len() && self.records()[i].status != EscrowStatus::Cancelled
                ==> #[trigger] self.disbursed@[i] == released_sum(self.records()[i].milestones)
        &&& forall|i: int|
            0 <= i < self.escrows@.len() && !self.unbacked@[i] ==> #[trigger] self.disbursed@[i]
                <= self.records()[i].deposited
    }

    /// How the engine may change from `self` to `next`: no record disappears and
    /// each stored record evolves as `record_evolves` allows.
    pub open spec fn evolves(&self, next: &Self) -> bool {
        &&& self.records().len() <= next.records().len()
        &&& forall|i: int|
            0 <= i < self.records().len() ==> record_evolves(
                #[trigger] self.records()[i],
                next.records()[i],
            )
    }

    /// An engine with no escrow.
    pub fn new() -> (r: Self)
        ensures
            r.wf(),
            r.records().len() == 0,
            r.event_log().len() == 0,
    {
        let r = EscrowMultiRelease {
            escrows: Vec::new(),
            events: Vec::new(),
            disbursed: Ghost(Seq::empty()),
            unbacked: Ghost(Seq::empty()),
        };
        assert(r.records() =~= Seq::empty());
        r
    }

    /// Number of escrows created so far; the next escrow gets this id.
    pub fn escrow_count(&self) -> (r: u64)
        requires
            self.wf(),
        ensures
            r == self.records().len(),
    {
        proof {
            assert(self.records().len() == self.escrows@.len());
        }
        self.escrows.len() as u64
    }

    /// Create an escrow paid by `caller` to `freelancer`, with optional `arbiter`, at
    /// time `now`. The milestones must be non-empty, add up to more than zero, carry
    /// their position as id and be unreleased. Returns the new escrow's id.
    pub fn create_escrow(
        &mut self,
        caller: AccountId,
        freelancer: AccountId,
        milestones: Vec<Milestone>,
        arbiter: Option<AccountId>,
        now: u64,
    ) -> (r: Result<u64, EscrowError>)
        requires
            old(self).wf(),
            old(self).records().len() < u64::MAX,
            amount_sum(milestones@) <= Balance::MAX,
        ensures
            final(self).wf(),
            old(self).evolves(final(self)),
            reports(r, create_error(milestones@)),
            r is Err ==> *final(self) == *old(self),
            r is Ok ==> {
                let id = old(self).records().len() as u64;
                &&& r == Ok::<u64, EscrowError>(id)
                &&& final(self).records() == old(self).records().push(
                    created(id, caller, freelancer, arbiter, milestones@, now),
                )
                &&& final(self).event_log() == old(self).event_log().push(
                    EscrowEvent::Created(
                        EscrowCreated {
                            escrow_id: id,
                            client: caller,
                            freelancer,
                            arbiter,
                            total_amount: amount_sum(milestones@) as Balance,
                        },
                    ),
                )
                &&& final(self).disbursed() == old(self).disbursed().push(0)
                &&& final(self).unbacked() == old(self).unbacked().push(false)
            },
    {
        let escrow_id = self.escrows.len() as u64;
        let ghost pre = *self;
        match Escrow::create(escrow_id, caller, freelancer, milestones, arbiter, now) {
            Err(err) => Err(err),
            Ok(step) => {
                proof {
                    let ms = step.escrow@.milestones;
                    lemma_no_milestone_error(ms, 0);
                    lemma_none_released(ms);
                    lemma_prefix_sums(ms, 0);
                    assert(ids_sequential(ms));
                    assert(none_released(ms));
                }
                self.append(step);
                proof {
                    assert(self.disbursed() == pre.disbursed().push(0));
                }
                Ok(escrow_id)
            },
        }
    }

    /// Store `e` as escrow `id`, with `paid` as the value paid out for it so far and
    /// `flag` as whether a payment for it went beyond its deposit's backing.
    fn commit(&mut self, id: usize, e: Escrow, paid: Ghost<int>, flag: Ghost<bool>)
        requires
            old(self).wf(),
            id < old(self).records().len(),
            record_wf(e@, id as int),
            e@.status != EscrowStatus::Cancelled ==> paid@ == released_sum(e@.milestones),
            !flag@ ==> paid@ <= e@.deposited,
        ensures
            final(self).wf(),
            final(self).records() == old(self).records().update(id as int, e@),
            final(self).event_log() == old(self).event_log(),
            final(self).disbursed() == old(self).disbursed().update(id as int, paid@),
            final(self).unbacked() == old(self).unbacked().update(id as int, flag@),
    {
        let ghost pre = self.records();
        self.escrows.set(id, e);
        self.disbursed = Ghost(self.disbursed@.update(id as int, paid@));
        self.unbacked = Ghost(self.unbacked@.update(id as int, flag@));
        proof {
            assert(self.records() =~= pre.update(id as int, e@));
        }
    }

    /// Store the record of `step` as escrow `idx`, log its event, and hand back its
    /// payments; `paid` and `flag` are the escrow's new payout bookkeeping.
    fn apply(&mut self, idx: usize, step: Step, paid: Ghost<int>, flag: Ghost<bool>) -> (r: Vec<
        Transfer,
    >)
        requires
            old(self).wf(),
            idx < old(self).records().len(),
            record_wf(step.escrow@, idx as int),
            step.escrow@.status != EscrowStatus::Cancelled ==> paid@ == released_sum(
                step.escrow@.milestones,
            ),
            !flag@ ==> paid@ <= step.escrow@.deposited,
        ensures
            final(self).wf(),
            r@ == step.transfers@,
            final(self).records() == old(self).records().update(idx as int, step.escrow@),
            final(self).event_log() == logged(old(self).event_log(), step.event),
            final(self).disbursed() == old(self).disbursed().update(idx as int, paid@),
            final(self).unbacked() == old(self).unbacked().update(idx as int, flag@),
    {
        let Step { escrow, transfers, event } = step;
        self.commit(idx, escrow, paid, flag);
        match event {
            Some(ev) => self.events.push(ev),
            None => {},
        }
        transfers
    }

    /// Store the record of `step` as a new escrow, with nothing paid out for it yet,
    /// and log its event.
    fn append(&mut self, step: Step)
        requires
            old(self).wf(),
            old(self).records().len() < u64::MAX,
            record_wf(step.escrow@, old(self).records().len() as int),
            released_sum(step.escrow@.milestones) == 0,
        ensures
            final(self).wf(),
            final(self).records() == old(self).records().push(step.escrow@),
            final(self).event_log() == logged(old(self).event_log(), step.event),
            final(self).disbursed() == old(self).disbursed().push(0),
            final(self).unbacked() == old(self).unbacked().push(false),
    {
        let ghost pre = self.records();
        let Step { escrow, transfers: _, event } = step;
        self.escrows.push(escrow);
        self.disbursed = Ghost(self.disbursed@.push(0));
        self.unbacked = Ghost(self.unbacked@.push(false));
        match event {
            Some(ev) => self.events.push(ev),
            None => {},
        }
        proof {
            assert(self.records() =~= pre.push(step.escrow@));
            assert forall|i: int| 0 <= i < self.escrows@.len() implies record_wf(
                #[trigger] self.records()[i],
                i,
            ) by {
                if i < pre.len() {
                    assert(self.records()[i] == pre[i]);
                }
            }
        }
    }

    /// Fund escrow `escrow_id` with `transferred`, the value attached to the call.
    /// Only the payer may fund, only a `Created` escrow, and with at least its total;
    /// the deposit becomes the total, whatever was attached.
    pub fn fund_escrow(&mut self, caller: AccountId, escrow_id: u64, transferred: Balance) -> (r:
        Result<(), EscrowError>)
        requires
            old(self).wf(),
        ensures
            final(self).wf(),
            old(self).evolves(final(self)),
            reports(
                r,
                if escrow_id >= old(self).records().len() {
                    Some(EscrowError::EscrowNotFound)
                } else {
                    fund_error(old(self).records()[escrow_id as int], caller, transferred)
                },
            ),
            r is Err ==> *final(self) == *old(self),
            r is Ok ==> {
                &&& final(self).records() == old(self).records().update(
                    escrow_id as int,
                    funded(old(self).records()[escrow_id as int]),
                )
                &&& final(self).event_log() == old(self).event_log().push(
                    EscrowEvent::Funded(EscrowFunded { escrow_id, amount: transferred }),
                )
                &&& final(self).disbursed() == old(self).disbursed()
                &&& final(self).unbacked() == old(self).unbacked()
            },
    {
        if escrow_id >= self.escrows.len() as u64 {
            return Err(EscrowError::EscrowNotFound);
        }
        let idx = escrow_id as usize;
        let ghost pre = *self;
        let ghost old_e = self.records()[idx as int];
        assert(record_wf(old_e, idx as int));
        match self.escrows[idx].fund(caller, transferred) {
            Err(err) => Err(err),
            Ok(step) => {
                proof {
                    lemma_none_released(old_e.milestones);
                }
                let ghost paid = pre.disbursed@[idx as int];
                let ghost flag = pre.unbacked@[idx as int];
                self.apply(idx, step, Ghost(paid), Ghost(flag));
                proof {
                    assert(self.disbursed() =~= pre.disbursed());
                    assert(self.unbacked() =~= pre.unbacked());
                }
                Ok(())
            },
        }
    }

    /// Release milestone `milestone_id` of escrow `escrow_id` to the payee. Only the
    /// payer may release, while the escrow is `Funded` or `Disputed`, an existing
    /// milestone not yet released, and only if custody can pay its amount. The escrow
    /// completes when no milestone is left. Returns the payment to the payee.
    pub fn release_milestone(
        &mut self,
        caller: AccountId,
        escrow_id: u64,
        milestone_id: u32,
        custody: Balance,
    ) -> (r: Result<Vec<Transfer>, EscrowError>)
        requires
            old(self).wf(),
        ensures
            final(self).wf(),
            old(self).evolves(final(self)),
            reports(
                r,
                if escrow_id >= old(self).records().len() {
                    Some(EscrowError::EscrowNotFound)
                } else {
                    release_error(old(self).records()[escrow_id as int], caller, milestone_id, custody)
                },
            ),
            r is Err ==> *final(self) == *old(self),
            r matches Ok(ts) ==> {
                let e = old(self).records()[escrow_id as int];
                let amount = e.milestones[milestone_id as int].amount;
                &&& ts@ == seq![Transfer { to: e.freelancer, amount }]
                &&& final(self).records() == old(self).records().update(
                    escrow_id as int,
                    released(e, milestone_id as int),
                )
                &&& final(self).event_log() == old(self).event_log().push(
                    EscrowEvent::Released(MilestoneReleased { escrow_id, milestone_id, amount }),
                )
                &&& final(self).disbursed() == old(self).disbursed().update(
                    escrow_id as int,
                    old(self).disbursed()[escrow_id as int] + transfer_sum(ts@),
                )
                &&& final(self).unbacked() == old(self).unbacked().update(
                    escrow_id as int,
                    old(self).unbacked()[escrow_id as int] || e.deposited == 0,
                )
            },
    {
        if escrow_id >= self.escrows.len() as u64 {
            return Err(EscrowError::EscrowNotFound);
        }
        let idx = escrow_id as usize;
        let ghost pre = *self;
        let ghost old_e = self.records()[idx as int];
        assert(record_wf(old_e, idx as int));
        match self.escrows[idx].release_milestone(caller, milestone_id, custody) {
            Err(err) => Err(err),
            Ok(step) => {
                let ghost k = milestone_id as int;
                let ghost amount = old_e.milestones[k].amount;
                proof {
                    let m = Milestone { released: true, ..old_e.milestones[k] };
                    lemma_release_one(old_e.milestones, k, m);
                    lemma_prefix_sums(step.escrow@.milestones, 0);
                    assert(ids_sequential(step.escrow@.milestones));
                    reveal_with_fuel(transfer_sum, 2);
                }
                let ghost paid = pre.disbursed@[idx as int] + amount;
                let ghost flag = pre.unbacked@[idx as int] || old_e.deposited == 0;
                let transfers = self.apply(idx, step, Ghost(paid), Ghost(flag));
                Ok(transfers)
            },
        }
    }


    /// Ask to cancel escrow `escrow_id`. Only the payer or the payee may ask, and not
    /// once the escrow is terminal. A first request records the caller and disputes
    /// the escrow; a request by the other party cancels it as `approve_cancel` does; a
    /// repeated request by the same party changes nothing. Returns the payments made.
    pub fn request_cancel(&mut self, caller: AccountId, escrow_id: u64, custody: Balance) -> (r:
        Result<Vec<Transfer>, EscrowError>)
        requires
            old(self).wf(),
        ensures
            final(self).wf(),
            old(self).evolves(final(self)),
            reports(
                r,
                if escrow_id >= old(self).records().len() {
                    Some(EscrowError::EscrowNotFound)
                } else {
                    request_cancel_error(old(self).records()[escrow_id as int], caller, custody)
                },
            ),
            r is Err ==> *final(self) == *old(self),
            r matches Ok(ts) ==> {
                let e = old(self).records()[escrow_id as int];
                match e.cancel_requested_by {
                    None => {
                        &&& ts@ == Seq::<Transfer>::empty()
                        &&& final(self).records() == old(self).records().update(
                            escrow_id as int,
                            dispute_opened(e, caller),
                        )
                        &&& final(self).event_log() == old(self).event_log().push(
                            EscrowEvent::CancelRequested(
                                CancelRequested { escrow_id, requested_by: caller },
                            ),
                        )
                        &&& final(self).disbursed() == old(self).disbursed()
                        &&& final(self).unbacked() == old(self).unbacked()
                    },
                    Some(p) => if p == caller {
                        &&& ts@ == Seq::<Transfer>::empty()
                        &&& *final(self) == *old(self)
                    } else {
                        &&& ts@ == cancel_transfers(e)
                        &&& final(self).records() == old(self).records().update(
                            escrow_id as int,
                            cancelled(e),
                        )
                        &&& final(self).event_log() == old(self).event_log().push(
                            cancel_event(escrow_id, e),
                        )
                        &&& final(self).disbursed() == old(self).disbursed().update(
                            escrow_id as int,
                            old(self).disbursed()[escrow_id as int] + transfer_sum(ts@),
                        )
                        &&& final(self).unbacked() == old(self).unbacked()
                    },
                }
            },
    {
        if escrow_id >= self.escrows.len() as u64 {
            return Err(EscrowError::EscrowNotFound);
        }
        let idx = escrow_id as usize;
        let ghost pre = *self;
        let ghost old_e = self.records()[idx as int];
        assert(record_wf(old_e, idx as int));
        match self.escrows[idx].request_cancel(caller, custody) {
            Err(err) => Err(err),
            Ok(step) => {
                if step.event.is_none() {
                    return Ok(step.transfers);
                }
                let ghost paid = pre.disbursed@[idx as int] + transfer_sum(step.transfers@);
                let ghost flag = pre.unbacked@[idx as int];
                proof {
                    reveal_with_fuel(transfer_sum, 2);
                }
                let transfers = self.apply(idx, step, Ghost(paid), Ghost(flag));
                proof {
                    assert(self.unbacked() =~= pre.unbacked());
                    if old_e.cancel_requested_by is None {
                        assert(self.disbursed() =~= pre.disbursed());
                    }
                }
                Ok(transfers)
            },
        }
    }

    /// Approve the pending cancellation of escrow `escrow_id`. Only the counterparty
    /// of the party that asked may approve. The payer gets back the deposit less what
    /// was released, when custody can pay it, and the escrow is cancelled. Returns the
    /// payments made.
    pub fn approve_cancel(&mut self, caller: AccountId, escrow_id: u64, custody: Balance) -> (r:
        Result<Vec<Transfer>, EscrowError>)
        requires
            old(self).wf(),
        ensures
            final(self).wf(),
            old(self).evolves(final(self)),
            reports(
                r,
                if escrow_id >= old(self).records().len() {
                    Some(EscrowError::EscrowNotFound)
                } else {
                    approve_cancel_error(old(self).records()[escrow_id as int], caller, custody)
                },
            ),
            r is Err ==> *final(self) == *old(self),
            r matches Ok(ts) ==> {
                let e = old(self).records()[escrow_id as int];
                &&& ts@ == cancel_transfers(e)
                &&& final(self).records() == old(self).records().update(
                    escrow_id as int,
                    cancelled(e),
                )
                &&& final(self).event_log() == old(self).event_log().push(
                    cancel_event(escrow_id, e),
                )
                &&& final(self).disbursed() == old(self).disbursed().update(
                    escrow_id as int,
                    old(self).disbursed()[escrow_id as int] + transfer_sum(ts@),
                )
                &&& final(self).unbacked() == old(self).unbacked()
            },
    {
        if escrow_id >= self.escrows.len() as u64 {
            return Err(EscrowError::EscrowNotFound);
        }
        let idx = escrow_id as usize;
        let ghost pre = *self;
        let ghost old_e = self.records()[idx as int];
        assert(record_wf(old_e, idx as int));
        match self.escrows[idx].approve_cancel(caller, custody) {
            Err(err) => Err(err),
            Ok(step) => {
                let ghost paid = pre.disbursed@[idx as int] + transfer_sum(step.transfers@);
                let ghost flag = pre.unbacked@[idx as int];
                proof {
                    reveal_with_fuel(transfer_sum, 2);
                }
                let transfers = self.apply(idx, step, Ghost(paid), Ghost(flag));
                proof {
                    assert(self.unbacked() =~= pre.unbacked());
                }
                Ok(transfers)
            },
        }
    }

    /// Settle disputed escrow `escrow_id` by its arbiter: `freelancer_share` goes to
    /// the payee and `client_refund` to the payer. Only the arbiter may settle, only a
    /// `Disputed` escrow, only with shares that add up to the deposit exactly, and only
    /// if custody can pay them. The escrow is cancelled. Returns the payments made.
    pub fn resolve_dispute_by_arbiter(
        &mut self,
        caller: AccountId,
        escrow_id: u64,
        freelancer_share: Balance,
        client_refund: Balance,
        custody: Balance,
    ) -> (r: Result<Vec<Transfer>, EscrowError>)
        requires
            old(self).wf(),
        ensures
            final(self).wf(),
            old(self).evolves(final(self)),
            reports(
                r,
                if escrow_id >= old(self).records().len() {
                    Some(EscrowError::EscrowNotFound)
                } else {
                    resolve_error(
                        old(self).records()[escrow_id as int],
                        caller,
                        freelancer_share,
                        client_refund,
                        custody,
                    )
                },
            ),
            r is Err ==> *final(self) == *old(self),
            r matches Ok(ts) ==> {
                let e = old(self).records()[escrow_id as int];
                &&& ts@ == resolve_transfers(e, freelancer_share, client_refund)
                &&& final(self).records() == old(self).records().update(
                    escrow_id as int,
                    cancelled(e),
                )
                &&& final(self).event_log() == old(self).event_log().push(
                    EscrowEvent::Resolved(
                        DisputeResolved { escrow_id, freelancer_share, client_refund },
                    ),
                )
                &&& final(self).disbursed() == old(self).disbursed().update(
                    escrow_id as int,
                    old(self).disbursed()[escrow_id as int] + transfer_sum(ts@),
                )
                &&& final(self).unbacked() == old(self).unbacked().update(
                    escrow_id as int,
                    old(self).unbacked()[escrow_id as int] || released_sum(e.milestones) > 0,
                )
            },
    {
        if escrow_id >= self.escrows.len() as u64 {
            return Err(EscrowError::EscrowNotFound);
        }
        let idx = escrow_id as usize;
        let ghost pre = *self;
        let ghost old_e = self.records()[idx as int];
        assert(record_wf(old_e, idx as int));
        match self.escrows[idx].resolve_dispute_by_arbiter(
            caller,
            freelancer_share,
            client_refund,
            custody,
        ) {
            Err(err) => Err(err),
            Ok(step) => {
                proof {
                    let ts = step.transfers@;
                    reveal_with_fuel(transfer_sum, 3);
                    if freelancer_share > 0 && client_refund > 0 {
                        assert(ts.drop_last() =~= seq![ts[0]]);
                    }
                }
                let ghost paid = pre.disbursed@[idx as int] + old_e.deposited;
                let ghost flag = pre.unbacked@[idx as int] || released_sum(old_e.milestones) > 0;
                let transfers = self.apply(idx, step, Ghost(paid), Ghost(flag));
                Ok(transfers)
            },
        }
    }

    /// The record of escrow `escrow_id`, if there is one.
    pub fn get_escrow(&self, escrow_id: u64) -> (r: Option<Escrow>)
        ensures
            escrow_id < self.records().len() <==> r is Some,
            r matches Some(e) ==> e@ == self.records()[escrow_id as int],
    {
        if escrow_id >= self.escrows.len() as u64 {
            return None;
        }
        Some(self.escrows[escrow_id as usize].clone())
    }

    /// Ids of the escrows that `client` pays, in creation order; empty if none.
    pub fn get_escrows_by_client(&self, client: AccountId) -> (r: Vec<u64>)
        requires
            self.wf(),
        ensures
            r@ == ids_of_client(self.records(), client),
    {
        let mut r: Vec<u64> = Vec::new();
        let mut i: usize = 0;
        while i < self.escrows.len()
            invariant
                self.wf(),
                0 <= i <= self.escrows.len(),
                r@ == ids_of_client(self.records().take(i as int), client),
            decreases self.escrows.len() - i,
        {
            proof {
                assert(self.records().take(i + 1).drop_last() =~= self.records().take(i as int));
                assert(record_wf(self.records()[i as int], i as int));
            }
            if self.escrows[i].client == client {
                r.push(self.escrows[i].id);
            }
            i = i + 1;
        }
        assert(self.records().take(i as int) =~= self.records());
        r
    }

    /// Ids of the escrows that pay `freelancer`, in creation order; empty if none.
    pub fn get_escrows_by_freelancer(&self, freelancer: AccountId) -> (r: Vec<u64>)
        requires
            self.wf(),
        ensures
            r@ == ids_of_freelancer(self.records(), freelancer),
    {
        let mut r: Vec<u64> = Vec::new();
        let mut i: usize = 0;
        while i < self.escrows.len()
            invariant
                self.wf(),
                0 <= i <= self.escrows.len(),
                r@ == ids_of_freelancer(self.records().take(i as int), freelancer),
            decreases self.escrows.len() - i,
        {
            proof {
                assert(self.records().take(i + 1).drop_last() =~= self.records().take(i as int));
                assert(record_wf(self.records()[i as int], i as int));
            }
            if self.escrows[i].freelancer == freelancer {
                r.push(self.escrows[i].id);
            }
            i = i + 1;
        }
        assert(self.records().take(i as int) =~= self.records());
        r
    }

    /// The milestones of escrow `escrow_id`; empty if there is no such escrow.
    pub fn get_milestones(&self, escrow_id: u64) -> (r: Vec<Milestone>)
        ensures
            escrow_id < self.records().len() ==> r@ == self.records()[escrow_id as int].milestones,
            escrow_id >= self.records().len() ==> r@.len() == 0,
    {
        if escrow_id >= self.escrows.len() as u64 {
            return Vec::new();
        }
        self.escrows[escrow_id as usize].clone().milestones
    }

    /// The events emitted so far, oldest first.
    pub fn events(&self) -> (r: &Vec<EscrowEvent>)
        ensures
            r@ == self.event_log(),
    {
        &self.events
    }
}

impl Default for EscrowMultiRelease {
    fn default() -> (r: Self)
        ensures
            r.wf(),
            r.records().len() == 0,
            r.event_log().len() == 0,
    {
        EscrowMultiRelease::new()
    }
}

/// Every stored escrow has milestones, and its total is the sum of their amounts and
/// more than zero.
pub proof fn lemma_total_is_milestone_sum(s: &EscrowMultiRelease, id: int)
    requires
        s.wf(),
        0 <= id < s.records().len(),
    ensures
        s.records()[id].milestones.len() > 0,
        s.records()[id].total_amount == amount_sum(s.records()[id].milestones),
        s.records()[id].total_amount > 0,
{
    assert(record_wf(s.records()[id], id));
}

/// A deposit is all or nothing: zero, or the escrow's total.
pub proof fn lemma_deposit_all_or_nothing(s: &EscrowMultiRelease, id: int)
    requires
        s.wf(),
        0 <= id < s.records().len(),
    ensures
        s.records()[id].deposited == 0 || s.records()[id].deposited == s.records()[id].total_amount,
{
    assert(record_wf(s.records()[id], id));
}

/// The engine's evolution is transitive, so what `evolves` keeps holds across any run
/// of operations, not only across one.
pub proof fn lemma_evolves_transitive(
    a: &EscrowMultiRelease,
    b: &EscrowMultiRelease,
    c: &EscrowMultiRelease,
)
    requires
        a.evolves(b),
        b.evolves(c),
    ensures
        a.evolves(c),
{
    assert forall|i: int| 0 <= i < a.records().len() implies record_evolves(
        #[trigger] a.records()[i],
        c.records()[i],
    ) by {
        let (x, y, z) = (a.records()[i], b.records()[i], c.records()[i]);
        assert(record_evolves(x, y));
        assert(record_evolves(y, z));
        assert forall|k: int| 0 <= k < x.milestones.len() implies {
            &&& (#[trigger] z.milestones[k]).id == x.milestones[k].id
            &&& z.milestones[k].amount == x.milestones[k].amount
            &&& z.milestones[k].description == x.milestones[k].description
            &&& x.milestones[k].released ==> z.milestones[k].released
        } by {
            assert(y.milestones[k].id == x.milestones[k].id);
            assert(z.milestones[k].id == y.milestones[k].id);
        }
        if x.status.is_terminal() {
            assert(y == x);
        }
    }
}

/// Once released, a milestone stays released.
pub proof fn lemma_released_stays_released(
    a: &EscrowMultiRelease,
    b: &EscrowMultiRelease,
    id: int,
    mid: int,
)
    requires
        a.evolves(b),
        0 <= id < a.records().len(),
        0 <= mid < a.records()[id].milestones.len(),
        a.records()[id].milestones[mid].released,
    ensures
        b.records()[id].milestones[mid].released,
{
    assert(record_evolves(a.records()[id], b.records()[id]));
    assert(b.records()[id].milestones[mid].id == a.records()[id].milestones[mid].id);
}

/// A `Completed` or `Cancelled` escrow never changes again.
pub proof fn lemma_terminal_is_final(a: &EscrowMultiRelease, b: &EscrowMultiRelease, id: int)
    requires
        a.evolves(b),
        0 <= id < a.records().len(),
        a.records()[id].status.is_terminal(),
    ensures
        b.records()[id] == a.records()[id],
{
    assert(record_evolves(a.records()[id], b.records()[id]));
}

/// The value paid out of custody for an escrow never exceeds its deposit, unless a
/// milestone of it was released before it was funded or the arbiter split its deposit
/// after a milestone release.
pub proof fn lemma_payouts_within_deposit(s: &EscrowMultiRelease, id: int)
    requires
        s.wf(),
        0 <= id < s.records().len(),
        !s.unbacked()[id],
    ensures
        s.disbursed()[id] <= s.records()[id].deposited,
{
}

} // verus!
