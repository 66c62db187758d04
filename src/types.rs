use vstd::prelude::*;

use crate::account::AccountId;

verus! {

/// Quantity of value held in custody or moved out of it.
pub type Balance = u128;

/// Lifecycle state of an escrow.
#[derive(Clone, Copy, Debug, PartialEq, Eq, Structural)]
pub enum EscrowStatus {
    /// Created, waiting for funds.
    Created,
    /// Funds deposited, work in progress.
    Funded,
    /// Every milestone has been released.
    Completed,
    /// Cancelled by mutual agreement or settled by the arbiter.
    Cancelled,
    /// A cancellation was requested; waiting for the counterparty or the arbiter.
    Disputed,
}

impl EscrowStatus {
    /// `Completed` and `Cancelled` admit no further transition.
    pub open spec fn is_terminal(self) -> bool {
        self == EscrowStatus::Completed || self == EscrowStatus::Cancelled
    }
}

/// A payable unit within an escrow.
#[derive(Debug)]
pub struct Milestone {
    /// Position of the milestone within its escrow.
    pub id: u32,
    /// Amount paid when the milestone is released.
    pub amount: Balance,
    /// Whether the milestone has been paid out.
    pub released: bool,
    /// Reference to the off-record description of the work.
    pub description: String,
}

impl Clone for Milestone {
    fn clone(&self) -> (r: Self)
        ensures
            r == *self,
    {
        Milestone {
            id: self.id,
            amount: self.amount,
            released: self.released,
            description: self.description.clone(),
        }
    }
}

/// A custody agreement between a payer (`client`) and a payee (`freelancer`).
#[derive(Debug)]
pub struct Escrow {
    /// Identifier, assigned in creation order.
    pub id: u64,
    /// The payer.
    pub client: AccountId,
    /// The payee.
    pub freelancer: AccountId,
    /// The account that may settle a dispute, if any.
    pub arbiter: Option<AccountId>,
    /// Sum of the milestone amounts.
    pub total_amount: Balance,
    /// Value held in custody for this escrow: zero until funded, then `total_amount`.
    pub deposited: Balance,
    /// The milestones, in order; milestone `i` has id `i`.
    pub milestones: Vec<Milestone>,
    /// Lifecycle state.
    pub status: EscrowStatus,
    /// The party whose cancellation request is pending, if any.
    pub cancel_requested_by: Option<AccountId>,
    /// Creation time, as supplied by the host.
    pub created_at: u64,
}

/// Sum of the amounts of the milestones in `ms`.
pub open spec fn amount_sum(ms: Seq<Milestone>) -> int
    decreases ms.len(),
{
    if ms.len() == 0 {
        0
    } else {
        amount_sum(ms.drop_last()) + ms.last().amount
    }
}

/// Sum of the amounts of the released milestones in `ms`.
pub open spec fn released_sum(ms: Seq<Milestone>) -> int
    decreases ms.len(),
{
    if ms.len() == 0 {
        0
    } else {
        released_sum(ms.drop_last()) + if ms.last().released {
            ms.last().amount as int
        } else {
            0
        }
    }
}

/// Milestone `i` has id `i`.
pub open spec fn ids_sequential(ms: Seq<Milestone>) -> bool {
    forall|i: int| 0 <= i < ms.len() ==> #[trigger] ms[i].id == i
}

/// No milestone has been released.
pub open spec fn none_released(ms: Seq<Milestone>) -> bool {
    forall|i: int| 0 <= i < ms.len() ==> !(#[trigger] ms[i].released)
}

/// Every milestone has been released.
pub open spec fn all_released(ms: Seq<Milestone>) -> bool {
    forall|i: int| 0 <= i < ms.len() ==> (#[trigger] ms[i].released)
}

/// The mathematical value of an `Escrow`: its milestones as a sequence.
pub ghost struct EscrowView {
    pub id: u64,
    pub client: AccountId,
    pub freelancer: AccountId,
    pub arbiter: Option<AccountId>,
    pub total_amount: Balance,
    pub deposited: Balance,
    pub milestones: Seq<Milestone>,
    pub status: EscrowStatus,
    pub cancel_requested_by: Option<AccountId>,
    pub created_at: u64,
}

impl View for Escrow {
    type V = EscrowView;

    open spec fn view(&self) -> EscrowView {
        EscrowView {
            id: self.id,
            client: self.client,
            freelancer: self.freelancer,
            arbiter: self.arbiter,
            total_amount: self.total_amount,
            deposited: self.deposited,
            milestones: self.milestones@,
            status: self.status,
            cancel_requested_by: self.cancel_requested_by,
            created_at: self.created_at,
        }
    }
}

impl Clone for Escrow {
    fn clone(&self) -> (r: Self)
        ensures
            r@ == self@,
    {
        let mut milestones: Vec<Milestone> = Vec::new();
        let mut i: usize = 0;
        while i < self.milestones.len()
            invariant
                0 <= i <= self.milestones.len(),
                milestones@ == self.milestones@.subrange(0, i as int),
            decreases self.milestones.len() - i,
        {
            milestones.push(self.milestones[i].clone());
            i = i + 1;
            assert(milestones@ =~= self.milestones@.subrange(0, i as int));
        }
        assert(milestones@ =~= self.milestones@);
        Escrow {
            id: self.id,
            client: self.client,
            freelancer: self.freelancer,
            arbiter: self.arbiter,
            total_amount: self.total_amount,
            deposited: self.deposited,
            milestones,
            status: self.status,
            cancel_requested_by: self.cancel_requested_by,
            created_at: self.created_at,
        }
    }
}

/// Why an operation was refused. A refused operation changes nothing.
#[derive(Clone, Copy, Debug, PartialEq, Eq, Structural)]
pub enum EscrowError {
    /// No escrow has the given id.
    EscrowNotFound,
    /// The caller does not hold the role the operation needs.
    Unauthorized,
    /// The operation is not allowed in the escrow's current state.
    InvalidStatus,
    /// Too little value attached, or custody cannot cover a payment.
    InsufficientFunds,
    /// The escrow has no milestone with the given id.
    MilestoneNotFound,
    /// The milestone was paid out already.
    MilestoneAlreadyReleased,
    /// The escrow has no arbiter.
    InvalidArbiter,
    /// The arbiter's split does not add up to the deposit, or milestone ids are out of order.
    InvalidAmount,
    /// An escrow needs at least one milestone.
    EmptyMilestones,
    /// The milestone amounts add up to zero.
    ZeroAmount,
}

/// A payment out of custody that the host must carry out.
#[derive(Clone, Copy, Debug, PartialEq, Eq)]
pub struct Transfer {
    /// Receiving account.
    pub to: AccountId,
    /// Amount moved.
    pub amount: Balance,
}

/// Sum of the amounts of `ts`.
pub open spec fn transfer_sum(ts: Seq<Transfer>) -> int
    decreases ts.len(),
{
    if ts.len() == 0 {
        0
    } else {
        transfer_sum(ts.drop_last()) + ts.last().amount
    }
}

/// A new escrow was created.
#[derive(Clone, Copy, Debug, PartialEq, Eq)]
pub struct EscrowCreated {
    pub escrow_id: u64,
    pub client: AccountId,
    pub freelancer: AccountId,
    pub arbiter: Option<AccountId>,
    pub total_amount: Balance,
}

/// An escrow was funded; `amount` is the value attached to the call.
#[derive(Clone, Copy, Debug, PartialEq, Eq)]
pub struct EscrowFunded {
    pub escrow_id: u64,
    pub amount: Balance,
}

/// A milestone was paid out to the payee.
#[derive(Clone, Copy, Debug, PartialEq, Eq)]
pub struct MilestoneReleased {
    pub escrow_id: u64,
    pub milestone_id: u32,
    pub amount: Balance,
}

/// A party asked to cancel.
#[derive(Clone, Copy, Debug, PartialEq, Eq)]
pub struct CancelRequested {
    pub escrow_id: u64,
    pub requested_by: AccountId,
}

/// Both parties agreed to cancel. `refund_to_client` is paid back now;
/// `refund_to_freelancer` reports what earlier releases paid the payee.
#[derive(Clone, Copy, Debug, PartialEq, Eq)]
pub struct EscrowCancelled {
    pub escrow_id: u64,
    pub refund_to_client: Balance,
    pub refund_to_freelancer: Balance,
}

/// The arbiter split the deposit between the parties.
#[derive(Clone, Copy, Debug, PartialEq, Eq)]
pub struct DisputeResolved {
    pub escrow_id: u64,
    pub freelancer_share: Balance,
    pub client_refund: Balance,
}

/// A lifecycle notification, in the order the operations happened.
#[derive(Clone, Copy, Debug, PartialEq, Eq)]
pub enum EscrowEvent {
    Created(EscrowCreated),
    Funded(EscrowFunded),
    Released(MilestoneReleased),
    CancelRequested(CancelRequested),
    Cancelled(EscrowCancelled),
    Resolved(DisputeResolved),
}

} // verus!
