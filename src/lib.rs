//! Milestone-based escrow between a payer and a payee, with an optional arbiter, and a
//! registry of profiles and peer-issued claims.
//!
//! The engine is a state machine over escrow records. The host supplies, for each
//! call, the calling account, the time, the value attached and the value custody can
//! pay out; it carries out the transfers that an operation returns and delivers the
//! events that the engine logs.

pub mod account;
pub mod types;
pub mod milestones;
pub mod lifecycle;
pub mod transitions;
pub mod engine;
pub mod registry;

pub use account::AccountId;
pub use engine::EscrowMultiRelease;
pub use milestones::checked_total;
pub use transitions::Step;
pub use registry::{
    Claim, ClaimAdded, ClaimApproved, ClaimStatus, ContractError, DidLinked, Profile,
    ProfileRegistered, RegistryEvent, SkillChainRegistry,
};
pub use types::{
    Balance, CancelRequested, DisputeResolved, Escrow, EscrowCancelled, EscrowCreated,
    EscrowError, EscrowEvent, EscrowFunded, EscrowStatus, Milestone, MilestoneReleased, Transfer,
};
