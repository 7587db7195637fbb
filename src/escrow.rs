use vstd::prelude::*;

use crate::model::{approved_part, approved_total, milestones_total, EscrowView};
use crate::totals::{
    lemma_approved_within_total, lemma_milestones_prefix, lemma_milestones_prefix_within,
    lemma_totals_update,
};
use crate::types::{EscrowError, EscrowStatus, Identity, Milestone, MilestoneStatus};

verus! {

/// One escrow as it is stored.
#[derive(Clone, Debug)]
pub struct EscrowData {
    pub depositor: Identity,
    pub beneficiary: Identity,
    pub arbiter: Identity,
    pub token: Identity,
    pub total_amount: i128,
    pub paid_amount: i128,
    pub deadline: u64,
    pub status: EscrowStatus,
    pub milestones: Vec<Milestone>,
    pub work_started: bool,
}

impl View for EscrowData {
    type V = EscrowView;

    open spec fn view(&self) -> EscrowView {
        EscrowView {
            depositor: self.depositor,
            beneficiary: self.beneficiary,
            arbiter: self.arbiter,
            token: self.token,
            total_amount: self.total_amount,
            paid_amount: self.paid_amount,
            deadline: self.deadline,
            status: self.status,
            milestones: self.milestones@,
            work_started: self.work_started,
        }
    }
}

impl EscrowData {
    /// Whether this record meets the invariant of a stored record: three
    /// distinct parties, positive milestone amounts adding up to the total,
    /// a paid amount between zero and the approved amounts, and work marked
    /// started exactly when the escrow has left `Pending` other than by a
    /// refund, and whenever a milestone has left `NotStarted`.
    pub fn is_valid(&self) -> (r: bool)
        ensures
            r == self@.valid(),
    {
        if self.beneficiary == self.depositor || self.arbiter == self.depositor || self.arbiter
            == self.beneficiary {
            return false;
        }
        if self.milestones.len() == 0 {
            return false;
        }
        if self.total_amount <= 0 {
            proof {
                let ms = self.milestones@;
                if forall|j: int| 0 <= j < ms.len() ==> #[trigger] ms[j].amount > 0 {
                    lemma_milestones_prefix(ms, 0);
                    lemma_milestones_prefix_within(ms, 1);
                    assert(ms.take(0) =~= Seq::<Milestone>::empty());
                }
            }
            return false;
        }
        let left_pending = self.status != EscrowStatus::Pending && self.status
            != EscrowStatus::Refunded;
        if self.work_started != left_pending {
            return false;
        }
        let ghost ms = self.milestones@;
        let mut total: i128 = 0;
        let mut approved: i128 = 0;
        let mut i: usize = 0;
        while i < self.milestones.len()
            invariant
                ms == self.milestones@,
                0 <= i <= ms.len(),
                total == milestones_total(ms.take(i as int)),
                approved == approved_total(ms.take(i as int)),
                0 <= approved <= total <= self.total_amount,
                forall|j: int| 0 <= j < i ==> #[trigger] ms[j].amount > 0,
                forall|j: int|
                    0 <= j < i && #[trigger] ms[j].status != MilestoneStatus::NotStarted
                        ==> self.work_started,
            decreases ms.len() - i,
        {
            let m = self.milestones[i];
            proof {
                lemma_milestones_prefix(ms, i as int);
            }
            if m.amount <= 0 {
                return false;
            }
            if m.status != MilestoneStatus::NotStarted && !self.work_started {
                return false;
            }
            if m.amount > self.total_amount - total {
                proof {
                    if forall|j: int| 0 <= j < ms.len() ==> #[trigger] ms[j].amount > 0 {
                        lemma_milestones_prefix_within(ms, i + 1);
                    }
                }
                return false;
            }
            total = total + m.amount;
            if m.status == MilestoneStatus::Approved {
                approved = approved + m.amount;
            }
            i = i + 1;
        }
        proof {
            assert(ms.take(ms.len() as int) =~= ms);
        }
        total == self.total_amount && 0 <= self.paid_amount && self.paid_amount <= approved
    }

    pub(crate) fn start_work_error(&self, caller: Identity) -> (r: Option<EscrowError>)
        ensures
            r == self@.start_work_error(caller),
    {
        if caller != self.beneficiary {
            Some(EscrowError::NotAuthorized)
        } else if self.work_started {
            Some(EscrowError::WorkStarted)
        } else if self.status != EscrowStatus::Pending {
            Some(EscrowError::AlreadyCompleted)
        } else {
            None
        }
    }

    pub(crate) fn submit_error(&self, caller: Identity, index: u32) -> (r: Option<EscrowError>)
        ensures
            r == self@.submit_error(caller, index),
    {
        if caller != self.beneficiary {
            Some(EscrowError::NotAuthorized)
        } else if self.status != EscrowStatus::InProgress {
            Some(EscrowError::NotAuthorized)
        } else if index as usize >= self.milestones.len() {
            Some(EscrowError::InvalidMilestone)
        } else if self.milestones[index as usize].status != MilestoneStatus::NotStarted {
            Some(EscrowError::MilestoneAlreadySubmitted)
        } else {
            None
        }
    }

    pub(crate) fn decision_error(&self, caller: Identity, index: u32) -> (r: Option<EscrowError>)
        ensures
            r == self@.decision_error(caller, index),
    {
        if caller != self.depositor {
            Some(EscrowError::NotAuthorized)
        } else if index as usize >= self.milestones.len() {
            Some(EscrowError::InvalidMilestone)
        } else if self.milestones[index as usize].status != MilestoneStatus::Submitted {
            Some(EscrowError::MilestoneNotSubmitted)
        } else {
            None
        }
    }

    pub(crate) fn resolve_error(&self, caller: Identity, index: u32, pay: i128) -> (r: Option<
        EscrowError,
    >)
        ensures
            r == self@.resolve_error(caller, index, pay),
    {
        if caller != self.arbiter {
            Some(EscrowError::NotAuthorized)
        } else if index as usize >= self.milestones.len() {
            Some(EscrowError::InvalidMilestone)
        } else if self.milestones[index as usize].status != MilestoneStatus::Disputed {
            Some(EscrowError::NotAuthorized)
        } else if pay < 0 || pay > self.milestones[index as usize].amount {
            Some(EscrowError::InvalidMilestone)
        } else {
            None
        }
    }

    pub(crate) fn refund_error(&self, caller: Identity, now: u64) -> (r: Option<EscrowError>)
        ensures
            r == self@.refund_error(caller, now),
    {
        if caller != self.depositor {
            Some(EscrowError::NotAuthorized)
        } else if self.work_started {
            Some(EscrowError::WorkStarted)
        } else if self.status != EscrowStatus::Pending {
            Some(EscrowError::AlreadyCompleted)
        } else if now >= self.deadline {
            Some(EscrowError::NotAuthorized)
        } else {
            None
        }
    }

    pub(crate) fn mark_started(&mut self)
        requires
            old(self)@.valid(),
            old(self)@.start_work_error(old(self).beneficiary) is None,
        ensures
            final(self)@ == old(self)@.started(),
            final(self)@.valid(),
    {
        self.work_started = true;
        self.status = EscrowStatus::InProgress;
    }

    pub(crate) fn mark_submitted(&mut self, index: u32, now: u64)
        requires
            old(self)@.valid(),
            old(self)@.submit_error(old(self).beneficiary, index) is None,
        ensures
            final(self)@ == old(self)@.submitted(index, now),
            final(self)@.valid(),
    {
        let ghost before = self@;
        let mut m = self.milestones[index as usize];
        m.status = MilestoneStatus::Submitted;
        m.submitted_at = Some(now);
        self.milestones.set(index as usize, m);
        proof {
            lemma_totals_update(before.milestones, index as int, m);
            assert(self@ =~= before.submitted(index, now));
        }
    }

    pub(crate) fn mark_approved(&mut self, index: u32, now: u64)
        requires
            old(self)@.valid(),
            old(self)@.decision_error(old(self).depositor, index) is None,
        ensures
            final(self)@ == old(self)@.approved(index, now),
            final(self)@.valid(),
    {
        let ghost before = self@;
        let mut m = self.milestones[index as usize];
        let amount = m.amount;
        m.status = MilestoneStatus::Approved;
        m.approved_at = Some(now);
        proof {
            let after = before.milestones.update(index as int, m);
            lemma_totals_update(before.milestones, index as int, m);
            assert forall|i: int| 0 <= i < after.len() implies #[trigger] after[i].amount > 0 by {
                assert(before.milestones[i].amount > 0);
            }
            lemma_approved_within_total(after);
        }
        self.milestones.set(index as usize, m);
        self.paid_amount = self.paid_amount + amount;
        proof {
            assert(self@ =~= before.approved(index, now));
        }
    }

    pub(crate) fn mark_disputed(&mut self, index: u32)
        requires
            old(self)@.valid(),
            old(self)@.decision_error(old(self).depositor, index) is None,
        ensures
            final(self)@ == old(self)@.disputed(index),
            final(self)@.valid(),
    {
        let ghost before = self@;
        let mut m = self.milestones[index as usize];
        m.status = MilestoneStatus::Disputed;
        self.milestones.set(index as usize, m);
        self.status = EscrowStatus::Disputed;
        proof {
            lemma_totals_update(before.milestones, index as int, m);
            assert(before.milestones[index as int].status != MilestoneStatus::NotStarted);
            assert(self@ =~= before.disputed(index));
        }
    }

    pub(crate) fn mark_resolved(&mut self, index: u32, pay: i128)
        requires
            old(self)@.valid(),
            old(self)@.resolve_error(old(self).arbiter, index, pay) is None,
        ensures
            final(self)@ == old(self)@.resolved(index, pay),
            final(self)@.valid(),
    {
        let ghost before = self@;
        let mut m = self.milestones[index as usize];
        m.status = MilestoneStatus::Approved;
        proof {
            let after = before.milestones.update(index as int, m);
            lemma_totals_update(before.milestones, index as int, m);
            assert(approved_part(before.milestones[index as int]) == 0);
            assert forall|i: int| 0 <= i < after.len() implies #[trigger] after[i].amount > 0 by {
                assert(before.milestones[i].amount > 0);
            }
            lemma_approved_within_total(after);
            assert(before.milestones[index as int].status != MilestoneStatus::NotStarted);
        }
        self.milestones.set(index as usize, m);
        self.paid_amount = self.paid_amount + pay;
        self.status = EscrowStatus::InProgress;
        proof {
            assert(self@ =~= before.resolved(index, pay));
        }
    }

    pub(crate) fn mark_refunded(&mut self)
        requires
            old(self)@.valid(),
            !old(self).work_started,
            old(self).status == EscrowStatus::Pending,
        ensures
            final(self)@ == old(self)@.refunded(),
            final(self)@.valid(),
    {
        self.status = EscrowStatus::Refunded;
    }
}

} // verus!
