use vstd::prelude::*;

use crate::types::{
    Account, EscrowError, EscrowStatus, Identity, Milestone, MilestoneStatus, Transfer,
};

verus! {

/// Shortest escrow duration, in seconds (one hour).
pub const MIN_DURATION: u64 = 3600;

/// Longest escrow duration, in seconds (365 days).
pub const MAX_DURATION: u64 = 31536000;

/// Label given to every milestone at creation.
pub const MILESTONE_LABEL: &'static str = "milestone";

/// The mathematical value of one escrow record.
pub struct EscrowView {
    pub depositor: Identity,
    pub beneficiary: Identity,
    pub arbiter: Identity,
    pub token: Identity,
    pub total_amount: i128,
    pub paid_amount: i128,
    pub deadline: u64,
    pub status: EscrowStatus,
    pub milestones: Seq<Milestone>,
    pub work_started: bool,
}

/// Sum of a list of amounts.
pub open spec fn amounts_total(s: Seq<i128>) -> int
    decreases s.len(),
{
    if s.len() == 0 {
        0
    } else {
        amounts_total(s.drop_last()) + s.last()
    }
}

/// Sum of the amounts of all milestones.
pub open spec fn milestones_total(ms: Seq<Milestone>) -> int
    decreases ms.len(),
{
    if ms.len() == 0 {
        0
    } else {
        milestones_total(ms.drop_last()) + ms.last().amount
    }
}

/// What a milestone adds to the approved total: its amount once approved.
pub open spec fn approved_part(m: Milestone) -> int {
    if m.status == MilestoneStatus::Approved {
        m.amount as int
    } else {
        0
    }
}

/// Sum of the amounts of the approved milestones.
pub open spec fn approved_total(ms: Seq<Milestone>) -> int
    decreases ms.len(),
{
    if ms.len() == 0 {
        0
    } else {
        approved_total(ms.drop_last()) + approved_part(ms.last())
    }
}

/// A milestone as `create` makes it.
pub open spec fn fresh_milestone(amount: i128) -> Milestone {
    Milestone {
        description: MILESTONE_LABEL,
        amount,
        status: MilestoneStatus::NotStarted,
        submitted_at: None,
        approved_at: None,
    }
}

/// The record that `create` builds: pending, nothing paid, one fresh
/// milestone per amount.
pub open spec fn fresh_escrow(
    depositor: Identity,
    beneficiary: Identity,
    arbiter: Identity,
    token: Identity,
    amounts: Seq<i128>,
    deadline: u64,
) -> EscrowView {
    EscrowView {
        depositor,
        beneficiary,
        arbiter,
        token,
        total_amount: amounts_total(amounts) as i128,
        paid_amount: 0,
        deadline,
        status: EscrowStatus::Pending,
        milestones: Seq::new(amounts.len(), |i: int| fresh_milestone(amounts[i])),
        work_started: false,
    }
}

/// Why `create` refuses its arguments, if it does, in the order the checks run.
pub open spec fn creation_error(
    depositor: Identity,
    beneficiary: Identity,
    arbiter: Identity,
    amounts: Seq<i128>,
    duration: u64,
    now: u64,
) -> Option<EscrowError> {
    if beneficiary == depositor {
        Some(EscrowError::InvalidBeneficiary)
    } else if arbiter == depositor || arbiter == beneficiary {
        Some(EscrowError::InvalidArbiter)
    } else if duration < MIN_DURATION || duration > MAX_DURATION {
        Some(EscrowError::InvalidDuration)
    } else if amounts.len() == 0 {
        Some(EscrowError::InvalidMilestone)
    } else if exists|i: int| 0 <= i < amounts.len() && #[trigger] amounts[i] <= 0 {
        Some(EscrowError::ZeroAmount)
    } else if amounts_total(amounts) > i128::MAX {
        Some(EscrowError::InvalidMilestone)
    } else if now + duration > u64::MAX {
        Some(EscrowError::InvalidDeadline)
    } else {
        None
    }
}

impl EscrowView {
    /// The invariant of a stored record.
    pub open spec fn valid(self) -> bool {
        &&& self.beneficiary != self.depositor
        &&& self.arbiter != self.depositor
        &&& self.arbiter != self.beneficiary
        &&& self.milestones.len() > 0
        &&& forall|i: int| 0 <= i < self.milestones.len() ==> #[trigger] self.milestones[i].amount > 0
        &&& self.total_amount == milestones_total(self.milestones)
        &&& 0 <= self.paid_amount <= approved_total(self.milestones)
        &&& self.work_started <==> (self.status != EscrowStatus::Pending && self.status
            != EscrowStatus::Refunded)
        &&& forall|i: int|
            0 <= i < self.milestones.len() && #[trigger] self.milestones[i].status
                != MilestoneStatus::NotStarted ==> self.work_started
    }

    /// Whether `index` names one of the milestones.
    pub open spec fn has_milestone(self, index: u32) -> bool {
        index < self.milestones.len()
    }

    /// The milestone at `index`.
    pub open spec fn milestone(self, index: u32) -> Milestone {
        self.milestones[index as int]
    }

    /// This record with the milestone at `index` replaced.
    pub open spec fn with_milestone(self, index: u32, m: Milestone) -> EscrowView {
        EscrowView { milestones: self.milestones.update(index as int, m), ..self }
    }

    /// After `start_work`.
    pub open spec fn started(self) -> EscrowView {
        EscrowView { work_started: true, status: EscrowStatus::InProgress, ..self }
    }

    /// After `submit_milestone` at time `now`.
    pub open spec fn submitted(self, index: u32, now: u64) -> EscrowView {
        self.with_milestone(
            index,
            Milestone {
                status: MilestoneStatus::Submitted,
                submitted_at: Some(now),
                ..self.milestone(index)
            },
        )
    }

    /// After an approval at time `now` has been paid.
    pub open spec fn approved(self, index: u32, now: u64) -> EscrowView {
        EscrowView {
            paid_amount: (self.paid_amount + self.milestone(index).amount) as i128,
            ..self.with_milestone(
                index,
                Milestone {
                    status: MilestoneStatus::Approved,
                    approved_at: Some(now),
                    ..self.milestone(index)
                },
            )
        }
    }

    /// After `dispute_milestone`.
    pub open spec fn disputed(self, index: u32) -> EscrowView {
        EscrowView {
            status: EscrowStatus::Disputed,
            ..self.with_milestone(
                index,
                Milestone { status: MilestoneStatus::Disputed, ..self.milestone(index) },
            )
        }
    }

    /// After a dispute resolution that paid `pay` to the beneficiary.
    pub open spec fn resolved(self, index: u32, pay: i128) -> EscrowView {
        EscrowView {
            paid_amount: (self.paid_amount + pay) as i128,
            status: EscrowStatus::InProgress,
            ..self.with_milestone(
                index,
                Milestone { status: MilestoneStatus::Approved, ..self.milestone(index) },
            )
        }
    }

    /// After a refund.
    pub open spec fn refunded(self) -> EscrowView {
        EscrowView { status: EscrowStatus::Refunded, ..self }
    }

    /// A transfer of this escrow's token.
    pub open spec fn payment(self, from: Account, to: Account, amount: i128) -> Transfer {
        Transfer { token: self.token, from, to, amount }
    }

    /// Why `start_work` by `caller` is refused, if it is.
    pub open spec fn start_work_error(self, caller: Identity) -> Option<EscrowError> {
        if caller != self.beneficiary {
            Some(EscrowError::NotAuthorized)
        } else if self.work_started {
            Some(EscrowError::WorkStarted)
        } else if self.status != EscrowStatus::Pending {
            Some(EscrowError::AlreadyCompleted)
        } else {
            None
        }
    }

    /// Why `submit_milestone` by `caller` is refused, if it is.
    pub open spec fn submit_error(self, caller: Identity, index: u32) -> Option<EscrowError> {
        if caller != self.beneficiary {
            Some(EscrowError::NotAuthorized)
        } else if self.status != EscrowStatus::InProgress {
            Some(EscrowError::NotAuthorized)
        } else if !self.has_milestone(index) {
            Some(EscrowError::InvalidMilestone)
        } else if self.milestone(index).status != MilestoneStatus::NotStarted {
            Some(EscrowError::MilestoneAlreadySubmitted)
        } else {
            None
        }
    }

    /// Why the depositor's decision (approval or dispute) by `caller` is
    /// refused, if it is.
    pub open spec fn decision_error(self, caller: Identity, index: u32) -> Option<EscrowError> {
        if caller != self.depositor {
            Some(EscrowError::NotAuthorized)
        } else if !self.has_milestone(index) {
            Some(EscrowError::InvalidMilestone)
        } else if self.milestone(index).status != MilestoneStatus::Submitted {
            Some(EscrowError::MilestoneNotSubmitted)
        } else {
            None
        }
    }

    /// Why a dispute resolution by `caller` is refused, if it is.
    pub open spec fn resolve_error(self, caller: Identity, index: u32, pay: i128) -> Option<
        EscrowError,
    > {
        if caller != self.arbiter {
            Some(EscrowError::NotAuthorized)
        } else if !self.has_milestone(index) {
            Some(EscrowError::InvalidMilestone)
        } else if self.milestone(index).status != MilestoneStatus::Disputed {
            Some(EscrowError::NotAuthorized)
        } else if pay < 0 || pay > self.milestone(index).amount {
            Some(EscrowError::InvalidMilestone)
        } else {
            None
        }
    }

    /// Why a refund by `caller` at time `now` is refused, if it is.
    pub open spec fn refund_error(self, caller: Identity, now: u64) -> Option<EscrowError> {
        if caller != self.depositor {
            Some(EscrowError::NotAuthorized)
        } else if self.work_started {
            Some(EscrowError::WorkStarted)
        } else if self.status != EscrowStatus::Pending {
            Some(EscrowError::AlreadyCompleted)
        } else if now >= self.deadline {
            Some(EscrowError::NotAuthorized)
        } else {
            None
        }
    }

    /// The transfer that pays an approved milestone.
    pub open spec fn approval_transfers(self, index: u32) -> Seq<Transfer> {
        seq![
            self.payment(
                Account::Custody,
                Account::Holder(self.beneficiary),
                self.milestone(index).amount,
            ),
        ]
    }

    /// The transfers of a dispute resolution: `pay` to the beneficiary and the
    /// rest of the milestone back to the depositor, each only when positive.
    pub open spec fn resolution_transfers(self, index: u32, pay: i128) -> Seq<Transfer> {
        let rest = (self.milestone(index).amount - pay) as i128;
        let to_beneficiary = if pay > 0 {
            seq![self.payment(Account::Custody, Account::Holder(self.beneficiary), pay)]
        } else {
            Seq::empty()
        };
        let to_depositor = if rest > 0 {
            seq![self.payment(Account::Custody, Account::Holder(self.depositor), rest)]
        } else {
            Seq::empty()
        };
        to_beneficiary + to_depositor
    }

    /// The transfer that returns what is left to the depositor.
    pub open spec fn refund_transfers(self) -> Seq<Transfer> {
        seq![
            self.payment(
                Account::Custody,
                Account::Holder(self.depositor),
                (self.total_amount - self.paid_amount) as i128,
            ),
        ]
    }
}

} // verus!
