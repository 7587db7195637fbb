use vstd::prelude::*;

verus! {

/// A party to an escrow (or a token): a 32-byte key together with the kind of
/// account it names.
#[derive(Clone, Copy, Debug, PartialEq, Eq, Structural, Hash)]
pub struct Identity {
    pub is_contract: bool,
    pub high: u128,
    pub low: u128,
}

/// Errors that every operation reports instead of changing state.
#[derive(Clone, Copy, Debug, PartialEq, Eq, Structural)]
pub enum EscrowError {
    AlreadyCompleted,
    NotAuthorized,
    InvalidDeadline,
    ZeroAmount,
    EscrowNotFound,
    TransferFailed,
    InvalidBeneficiary,
    InvalidArbiter,
    CounterOverflow,
    InvalidDuration,
    Reentrancy,
    InvalidMilestone,
    MilestoneNotCompleted,
    DisputePeriodActive,
    WorkStarted,
    MilestoneAlreadySubmitted,
    MilestoneNotSubmitted,
}

/// The state of an escrow as a whole.
#[derive(Clone, Copy, Debug, PartialEq, Eq, Structural)]
pub enum EscrowStatus {
    Pending,
    InProgress,
    Released,
    Refunded,
    Disputed,
}

/// The state of one milestone.
#[derive(Clone, Copy, Debug, PartialEq, Eq, Structural)]
pub enum MilestoneStatus {
    NotStarted,
    Submitted,
    Approved,
    Disputed,
}

/// One unit of work and the amount it is worth.
#[derive(Clone, Copy, Debug)]
pub struct Milestone {
    pub description: &'static str,
    pub amount: i128,
    pub status: MilestoneStatus,
    pub submitted_at: Option<u64>,
    pub approved_at: Option<u64>,
}

/// Where funds are taken from or sent to: the escrow's own custody, or a party.
#[derive(Clone, Copy, Debug, PartialEq, Eq, Structural, Hash)]
pub enum Account {
    Custody,
    Holder(Identity),
}

/// A movement of `amount` units of `token` that an operation asks for.
#[derive(Clone, Copy, Debug, PartialEq, Eq, Structural)]
pub struct Transfer {
    pub token: Identity,
    pub from: Account,
    pub to: Account,
    pub amount: i128,
}

} // verus!

verus! {

/// Announced when an escrow has been funded and stored.
#[derive(Clone, Copy, Debug, PartialEq, Eq, Structural)]
pub struct EscrowCreated {
    pub id: u32,
    pub depositor: Identity,
    pub beneficiary: Identity,
    pub amount: i128,
}

/// Announced when a milestone has been handed in for approval.
#[derive(Clone, Copy, Debug, PartialEq, Eq, Structural)]
pub struct MilestoneSubmitted {
    pub id: u32,
    pub milestone_index: u32,
}

/// Announced when a milestone has been approved and paid.
#[derive(Clone, Copy, Debug, PartialEq, Eq, Structural)]
pub struct MilestoneApproved {
    pub id: u32,
    pub milestone_index: u32,
    pub amount: i128,
}

/// Announced when the beneficiary has started work.
#[derive(Clone, Copy, Debug, PartialEq, Eq, Structural)]
pub struct WorkStarted {
    pub id: u32,
    pub started_at: u64,
}

/// What a settled operation committed.
#[derive(Clone, Copy, Debug, PartialEq, Eq, Structural)]
pub enum Settled {
    Created(EscrowCreated),
    Approved(MilestoneApproved),
    Resolved { id: u32, milestone_index: u32 },
    Refunded { id: u32 },
}

} // verus!
