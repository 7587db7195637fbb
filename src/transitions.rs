use vstd::prelude::*;

use crate::model::{
    amounts_total, approved_part, creation_error, fresh_escrow, fresh_milestone,
    milestones_total, EscrowView,
};
use crate::totals::{
    lemma_approved_within_total, lemma_fresh_totals, lemma_prefix_within_total,
    lemma_totals_update,
};
use crate::types::{EscrowStatus, Identity, Milestone, MilestoneStatus};

verus! {

impl EscrowView {
    /// How a record may change from one operation to the next: parties, token,
    /// amounts and deadline stay, the amount paid never goes down, started
    /// work stays started, and a refunded record stays as it is.
    pub open spec fn evolves_to(self, next: EscrowView) -> bool {
        &&& next.depositor == self.depositor
        &&& next.beneficiary == self.beneficiary
        &&& next.arbiter == self.arbiter
        &&& next.token == self.token
        &&& next.total_amount == self.total_amount
        &&& next.deadline == self.deadline
        &&& next.milestones.len() == self.milestones.len()
        &&& forall|i: int|
            0 <= i < self.milestones.len() ==> (#[trigger] next.milestones[i]).amount
                == self.milestones[i].amount
        &&& self.paid_amount <= next.paid_amount
        &&& self.work_started ==> next.work_started
        &&& self.status == EscrowStatus::Refunded ==> next == self
    }
}

/// A valid record has paid out no more than it holds.
pub proof fn lemma_paid_within_total(e: EscrowView)
    requires
        e.valid(),
    ensures
        0 <= e.paid_amount <= e.total_amount,
{
    lemma_approved_within_total(e.milestones);
}

/// Replacing the milestone at `index` by one of the same amount and a status
/// that is not `NotStarted`, in a started record, keeps the record valid when
/// the approved total moves by `paid - paid_before`.
proof fn lemma_replace_valid(e: EscrowView, n: EscrowView, index: u32, m: Milestone)
    requires
        e.valid(),
        e.has_milestone(index),
        e.work_started,
        m.amount == e.milestone(index).amount,
        m.status != MilestoneStatus::NotStarted,
        n.milestones == e.milestones.update(index as int, m),
        n.depositor == e.depositor,
        n.beneficiary == e.beneficiary,
        n.arbiter == e.arbiter,
        n.token == e.token,
        n.total_amount == e.total_amount,
        n.deadline == e.deadline,
        n.work_started,
        n.status != EscrowStatus::Pending,
        n.status != EscrowStatus::Refunded,
        e.paid_amount <= n.paid_amount,
        n.paid_amount - e.paid_amount <= approved_part(m) - approved_part(e.milestone(index)),
    ensures
        n.valid(),
        e.evolves_to(n),
{
    lemma_totals_update(e.milestones, index as int, m);
    assert forall|i: int| 0 <= i < n.milestones.len() implies #[trigger] n.milestones[i].amount
        > 0 by {
        assert(e.milestones[i].amount > 0);
    }
    lemma_approved_within_total(n.milestones);
    assert forall|i: int| 0 <= i < e.milestones.len() implies (#[trigger] n.milestones[i]).amount
        == e.milestones[i].amount by {}
}

pub proof fn lemma_started_valid(e: EscrowView, caller: Identity)
    requires
        e.valid(),
        e.start_work_error(caller) is None,
    ensures
        e.started().valid(),
        e.evolves_to(e.started()),
{
    assert forall|i: int| 0 <= i < e.milestones.len() implies (#[trigger] e.started().milestones[
        i]).amount == e.milestones[i].amount by {}
}

pub proof fn lemma_submitted_valid(e: EscrowView, caller: Identity, index: u32, now: u64)
    requires
        e.valid(),
        e.submit_error(caller, index) is None,
    ensures
        e.submitted(index, now).valid(),
        e.evolves_to(e.submitted(index, now)),
{
    let m = Milestone {
        status: MilestoneStatus::Submitted,
        submitted_at: Some(now),
        ..e.milestone(index)
    };
    lemma_replace_valid(e, e.submitted(index, now), index, m);
}

pub proof fn lemma_approved_valid(e: EscrowView, caller: Identity, index: u32, now: u64)
    requires
        e.valid(),
        e.decision_error(caller, index) is None,
    ensures
        e.approved(index, now).valid(),
        e.evolves_to(e.approved(index, now)),
{
    let m = Milestone {
        status: MilestoneStatus::Approved,
        approved_at: Some(now),
        ..e.milestone(index)
    };
    assert(e.milestones[index as int].status != MilestoneStatus::NotStarted);
    let ms = e.milestones.update(index as int, m);
    lemma_totals_update(e.milestones, index as int, m);
    assert forall|i: int| 0 <= i < ms.len() implies #[trigger] ms[i].amount > 0 by {
        assert(e.milestones[i].amount > 0);
    }
    lemma_approved_within_total(ms);
    lemma_replace_valid(e, e.approved(index, now), index, m);
}

pub proof fn lemma_disputed_valid(e: EscrowView, caller: Identity, index: u32)
    requires
        e.valid(),
        e.decision_error(caller, index) is None,
    ensures
        e.disputed(index).valid(),
        e.evolves_to(e.disputed(index)),
{
    let m = Milestone { status: MilestoneStatus::Disputed, ..e.milestone(index) };
    assert(e.milestones[index as int].status != MilestoneStatus::NotStarted);
    lemma_replace_valid(e, e.disputed(index), index, m);
}

pub proof fn lemma_resolved_valid(e: EscrowView, caller: Identity, index: u32, pay: i128)
    requires
        e.valid(),
        e.resolve_error(caller, index, pay) is None,
    ensures
        e.resolved(index, pay).valid(),
        e.evolves_to(e.resolved(index, pay)),
{
    let m = Milestone { status: MilestoneStatus::Approved, ..e.milestone(index) };
    assert(e.milestones[index as int].status != MilestoneStatus::NotStarted);
    let ms = e.milestones.update(index as int, m);
    lemma_totals_update(e.milestones, index as int, m);
    assert forall|i: int| 0 <= i < ms.len() implies #[trigger] ms[i].amount > 0 by {
        assert(e.milestones[i].amount > 0);
    }
    lemma_approved_within_total(ms);
    lemma_replace_valid(e, e.resolved(index, pay), index, m);
}

pub proof fn lemma_refunded_valid(e: EscrowView)
    requires
        e.valid(),
        !e.work_started,
        e.status == EscrowStatus::Pending,
    ensures
        e.refunded().valid(),
        e.evolves_to(e.refunded()),
{
    assert forall|i: int| 0 <= i < e.milestones.len() implies (#[trigger] e.refunded().milestones[
        i]).amount == e.milestones[i].amount by {}
}

/// A record that `create` accepts the arguments of is valid.
pub proof fn lemma_fresh_valid(
    depositor: Identity,
    beneficiary: Identity,
    arbiter: Identity,
    token: Identity,
    amounts: Seq<i128>,
    duration: u64,
    now: u64,
)
    requires
        creation_error(depositor, beneficiary, arbiter, amounts, duration, now) is None,
    ensures
        fresh_escrow(depositor, beneficiary, arbiter, token, amounts, (now + duration) as u64).valid(),
        fresh_escrow(depositor, beneficiary, arbiter, token, amounts, (now + duration) as u64).total_amount
            == amounts_total(amounts),
{
    let e = fresh_escrow(depositor, beneficiary, arbiter, token, amounts, (now + duration) as u64);
    assert forall|j: int| 0 <= j < amounts.len() implies #[trigger] amounts[j] > 0 by {
        if amounts[j] <= 0 {
            assert(exists|i: int| 0 <= i < amounts.len() && #[trigger] amounts[i] <= 0);
        }
    }
    lemma_prefix_within_total(amounts, 0);
    assert(amounts.take(0) =~= Seq::<i128>::empty());
    lemma_fresh_totals(amounts);
    assert forall|i: int| 0 <= i < e.milestones.len() implies #[trigger] e.milestones[i].amount
        > 0 by {
        assert(e.milestones[i] == fresh_milestone(amounts[i]));
    }
    assert(milestones_total(e.milestones) == amounts_total(amounts));
}

} // verus!
