use vstd::prelude::*;

use crate::escrow::EscrowData;
use crate::model::{
    amounts_total, creation_error, fresh_escrow, fresh_milestone, EscrowView, MAX_DURATION,
    MILESTONE_LABEL, MIN_DURATION,
};
use crate::state::{
    approve_step, create_step, dispute_step, refund_step, resolve_step, settle_step,
    start_work_step, submit_step, ContractView, PendingOp,
};
use crate::totals::{lemma_amounts_prefix, lemma_prefix_within_total};
use crate::transitions::{lemma_fresh_valid, lemma_paid_within_total};
use crate::types::{
    Account, EscrowCreated, EscrowError, EscrowStatus, Identity, Milestone, MilestoneApproved,
    MilestoneStatus, MilestoneSubmitted, Settled, Transfer, WorkStarted,
};

verus! {

/// An operation waiting for its transfers.
enum Pending {
    Create(EscrowData),
    Approve { id: u32, index: u32, at: u64 },
    Resolve { id: u32, index: u32, pay: i128 },
    Refund { id: u32 },
}

impl View for Pending {
    type V = PendingOp;

    closed spec fn view(&self) -> PendingOp {
        match self {
            Pending::Create(e) => PendingOp::Create(e@),
            Pending::Approve { id, index, at } => PendingOp::Approve {
                id: *id,
                index: *index,
                at: *at,
            },
            Pending::Resolve { id, index, pay } => PendingOp::Resolve {
                id: *id,
                index: *index,
                pay: *pay,
            },
            Pending::Refund { id } => PendingOp::Refund { id: *id },
        }
    }
}

/// The transfers an operation asks for, as a sequence.
pub open spec fn plan_view(r: Result<Vec<Transfer>, EscrowError>) -> Result<
    Seq<Transfer>,
    EscrowError,
> {
    match r {
        Ok(v) => Ok(v@),
        Err(err) => Err(err),
    }
}

/// The escrow contract: its records, its id counter and its reentrancy guard.
pub struct EscrowContract {
    escrows: Vec<EscrowData>,
    counter: u32,
    pending: Option<Pending>,
}

impl View for EscrowContract {
    type V = ContractView;

    closed spec fn view(&self) -> ContractView {
        ContractView {
            records: self.escrows@.map_values(|e: EscrowData| e@),
            counter: self.counter,
            pending: match self.pending {
                Some(p) => Some(p@),
                None => None,
            },
        }
    }
}

impl EscrowContract {
    /// The invariant of the contract.
    pub open spec fn wf(&self) -> bool {
        self@.wf()
    }

    /// A contract with no records, a counter at zero and the guard free.
    pub fn new() -> (r: EscrowContract)
        ensures
            r@ == (ContractView { records: Seq::empty(), counter: 0, pending: None }),
            r.wf(),
    {
        let r = EscrowContract { escrows: Vec::new(), counter: 0, pending: None };
        proof {
            assert(r@.records =~= Seq::<EscrowView>::empty());
        }
        r
    }

    /// Rebuilds a contract, with the guard free, from the records stored
    /// under ids 1, 2, ... in that order. `None` where a record is not valid
    /// or there are more records than ids.
    pub fn restore(records: Vec<EscrowData>) -> (r: Option<EscrowContract>)
        ensures
            r is Some <==> (records@.len() <= u32::MAX && forall|i: int|
                0 <= i < records@.len() ==> (#[trigger] records@[i])@.valid()),
            r matches Some(c) ==> c.wf() && c@ == (ContractView {
                records: records@.map_values(|e: EscrowData| e@),
                counter: records@.len() as u32,
                pending: None,
            }),
    {
        if records.len() > u32::MAX as usize {
            return None;
        }
        let mut i: usize = 0;
        while i < records.len()
            invariant
                0 <= i <= records@.len(),
                forall|j: int| 0 <= j < i ==> (#[trigger] records@[j])@.valid(),
            decreases records@.len() - i,
        {
            if !records[i].is_valid() {
                return None;
            }
            i = i + 1;
        }
        let counter = records.len() as u32;
        Some(EscrowContract { escrows: records, counter, pending: None })
    }

    /// The stored records, in id order; an operation still waiting for its
    /// transfers is dropped.
    pub fn into_records(self) -> (r: Vec<EscrowData>)
        ensures
            r@.map_values(|e: EscrowData| e@) == self@.records,
    {
        self.escrows
    }

    /// Whether an operation holds the reentrancy guard and waits for
    /// [`EscrowContract::settle`].
    pub fn is_locked(&self) -> (r: bool)
        ensures
            r == self@.locked(),
    {
        self.pending.is_some()
    }

    /// The id that the next successful creation receives, without taking it.
    pub fn next_id(&self) -> (r: Result<u32, EscrowError>)
        ensures
            r == self@.next_id(),
    {
        if self.counter == u32::MAX {
            Err(EscrowError::CounterOverflow)
        } else {
            Ok(self.counter + 1)
        }
    }

    /// The record stored under `id`.
    pub fn get_escrow(&self, id: u32) -> (r: Result<&EscrowData, EscrowError>)
        ensures
            match self@.record(id) {
                Some(e) => r matches Ok(d) && d@ == e,
                None => r is Err && r->Err_0 == EscrowError::EscrowNotFound,
            },
    {
        if id == 0 || id as usize > self.escrows.len() {
            Err(EscrowError::EscrowNotFound)
        } else {
            Ok(&self.escrows[(id - 1) as usize])
        }
    }

    /// Where the record under `id` sits, once the guard is seen to be free.
    fn guarded_slot(&self, id: u32) -> (r: Result<usize, EscrowError>)
        ensures
            match self@.guarded(id) {
                Ok(e) => r == Ok::<usize, EscrowError>((id - 1) as usize) && self.escrows@[id
                    - 1]@ == e,
                Err(err) => r == Err::<usize, EscrowError>(err),
            },
    {
        if self.pending.is_some() {
            Err(EscrowError::Reentrancy)
        } else if id == 0 || id as usize > self.escrows.len() {
            Err(EscrowError::EscrowNotFound)
        } else {
            Ok((id - 1) as usize)
        }
    }
}

impl EscrowContract {
    /// The beneficiary starts work on escrow `id` at time `now`; from then on
    /// the depositor can no longer take a refund.
    pub fn start_work(&mut self, caller: Identity, id: u32, now: u64) -> (r: Result<
        WorkStarted,
        EscrowError,
    >)
        requires
            old(self).wf(),
        ensures
            final(self).wf(),
            (final(self)@, r) == start_work_step(old(self)@, caller, id, now),
    {
        let idx = match self.guarded_slot(id) {
            Ok(i) => i,
            Err(err) => return Err(err),
        };
        if let Some(err) = self.escrows[idx].start_work_error(caller) {
            return Err(err);
        }
        let ghost before = self@;
        self.escrows[idx].mark_started();
        proof {
            assert(self@.records =~= before.records.update(
                idx as int,
                before.records[idx as int].started(),
            ));
        }
        Ok(WorkStarted { id, started_at: now })
    }

    /// The beneficiary hands milestone `milestone_index` of escrow `id` in for
    /// approval at time `now`. No funds move.
    pub fn submit_milestone(&mut self, caller: Identity, id: u32, milestone_index: u32, now: u64) -> (r:
        Result<MilestoneSubmitted, EscrowError>)
        requires
            old(self).wf(),
        ensures
            final(self).wf(),
            (final(self)@, r) == submit_step(old(self)@, caller, id, milestone_index, now),
    {
        let idx = match self.guarded_slot(id) {
            Ok(i) => i,
            Err(err) => return Err(err),
        };
        if let Some(err) = self.escrows[idx].submit_error(caller, milestone_index) {
            return Err(err);
        }
        let ghost before = self@;
        self.escrows[idx].mark_submitted(milestone_index, now);
        proof {
            assert(self@.records =~= before.records.update(
                idx as int,
                before.records[idx as int].submitted(milestone_index, now),
            ));
        }
        Ok(MilestoneSubmitted { id, milestone_index })
    }

    /// The depositor contests submitted milestone `milestone_index` of escrow
    /// `id`; the escrow waits for the arbiter. No funds move.
    pub fn dispute_milestone(&mut self, caller: Identity, id: u32, milestone_index: u32) -> (r:
        Result<(), EscrowError>)
        requires
            old(self).wf(),
        ensures
            final(self).wf(),
            (final(self)@, r) == dispute_step(old(self)@, caller, id, milestone_index),
    {
        let idx = match self.guarded_slot(id) {
            Ok(i) => i,
            Err(err) => return Err(err),
        };
        if let Some(err) = self.escrows[idx].decision_error(caller, milestone_index) {
            return Err(err);
        }
        let ghost before = self@;
        self.escrows[idx].mark_disputed(milestone_index);
        proof {
            assert(self@.records =~= before.records.update(
                idx as int,
                before.records[idx as int].disputed(milestone_index),
            ));
        }
        Ok(())
    }
}

impl EscrowContract {
    /// The depositor accepts submitted milestone `milestone_index` of escrow
    /// `id` at time `now`. On success the guard stays taken and the transfer
    /// of the milestone's amount to the beneficiary is returned; the approval
    /// is committed by [`EscrowContract::settle`] once it has been made.
    pub fn approve_milestone(
        &mut self,
        caller: Identity,
        id: u32,
        milestone_index: u32,
        now: u64,
    ) -> (r: Result<Vec<Transfer>, EscrowError>)
        requires
            old(self).wf(),
        ensures
            final(self).wf(),
            (final(self)@, plan_view(r)) == approve_step(
                old(self)@,
                caller,
                id,
                milestone_index,
                now,
            ),
    {
        let idx = match self.guarded_slot(id) {
            Ok(i) => i,
            Err(err) => return Err(err),
        };
        let e = &self.escrows[idx];
        if let Some(err) = e.decision_error(caller, milestone_index) {
            return Err(err);
        }
        let mut plan: Vec<Transfer> = Vec::new();
        plan.push(
            Transfer {
                token: e.token,
                from: Account::Custody,
                to: Account::Holder(e.beneficiary),
                amount: e.milestones[milestone_index as usize].amount,
            },
        );
        self.pending = Some(Pending::Approve { id, index: milestone_index, at: now });
        proof {
            assert(plan@ =~= self.escrows@[idx as int]@.approval_transfers(milestone_index));
            assert(self@.records =~= old(self)@.records);
        }
        Ok(plan)
    }

    /// The arbiter settles disputed milestone `milestone_index` of escrow `id`
    /// by paying `pay_to_beneficiary` to the beneficiary and the rest of the
    /// milestone back to the depositor. On success the guard stays taken and
    /// those transfers (each only when positive) are returned; the resolution
    /// is committed by [`EscrowContract::settle`] once they have been made.
    pub fn resolve_milestone_dispute(
        &mut self,
        caller: Identity,
        id: u32,
        milestone_index: u32,
        pay_to_beneficiary: i128,
    ) -> (r: Result<Vec<Transfer>, EscrowError>)
        requires
            old(self).wf(),
        ensures
            final(self).wf(),
            (final(self)@, plan_view(r)) == resolve_step(
                old(self)@,
                caller,
                id,
                milestone_index,
                pay_to_beneficiary,
            ),
    {
        let idx = match self.guarded_slot(id) {
            Ok(i) => i,
            Err(err) => return Err(err),
        };
        let e = &self.escrows[idx];
        if let Some(err) = e.resolve_error(caller, milestone_index, pay_to_beneficiary) {
            return Err(err);
        }
        let rest = e.milestones[milestone_index as usize].amount - pay_to_beneficiary;
        let mut plan: Vec<Transfer> = Vec::new();
        if pay_to_beneficiary > 0 {
            plan.push(
                Transfer {
                    token: e.token,
                    from: Account::Custody,
                    to: Account::Holder(e.beneficiary),
                    amount: pay_to_beneficiary,
                },
            );
        }
        if rest > 0 {
            plan.push(
                Transfer {
                    token: e.token,
                    from: Account::Custody,
                    to: Account::Holder(e.depositor),
                    amount: rest,
                },
            );
        }
        self.pending = Some(
            Pending::Resolve { id, index: milestone_index, pay: pay_to_beneficiary },
        );
        proof {
            assert(plan@ =~= self.escrows@[idx as int]@.resolution_transfers(
                milestone_index,
                pay_to_beneficiary,
            ));
            assert(self@.records =~= old(self)@.records);
        }
        Ok(plan)
    }

    /// The depositor takes back the funds of escrow `id` at time `now`,
    /// allowed only before work starts and before the deadline. On success
    /// the guard stays taken and the transfer of what is left to the
    /// depositor is returned; the refund is committed by
    /// [`EscrowContract::settle`] once it has been made.
    pub fn refund(&mut self, caller: Identity, id: u32, now: u64) -> (r: Result<
        Vec<Transfer>,
        EscrowError,
    >)
        requires
            old(self).wf(),
        ensures
            final(self).wf(),
            (final(self)@, plan_view(r)) == refund_step(old(self)@, caller, id, now),
    {
        let idx = match self.guarded_slot(id) {
            Ok(i) => i,
            Err(err) => return Err(err),
        };
        let e = &self.escrows[idx];
        if let Some(err) = e.refund_error(caller, now) {
            return Err(err);
        }
        proof {
            lemma_paid_within_total(e@);
        }
        let mut plan: Vec<Transfer> = Vec::new();
        plan.push(
            Transfer {
                token: e.token,
                from: Account::Custody,
                to: Account::Holder(e.depositor),
                amount: e.total_amount - e.paid_amount,
            },
        );
        self.pending = Some(Pending::Refund { id });
        proof {
            assert(plan@ =~= self.escrows@[idx as int]@.refund_transfers());
            assert(self@.records =~= old(self)@.records);
        }
        Ok(plan)
    }
}

/// The sum of `amounts`, all of them positive, or `InvalidMilestone` where it
/// does not fit an `i128`.
fn checked_total(amounts: &Vec<i128>) -> (r: Result<i128, EscrowError>)
    requires
        forall|j: int| 0 <= j < amounts@.len() ==> #[trigger] amounts@[j] > 0,
    ensures
        amounts_total(amounts@) <= i128::MAX ==> r == Ok::<i128, EscrowError>(
            amounts_total(amounts@) as i128,
        ),
        amounts_total(amounts@) > i128::MAX ==> r == Err::<i128, EscrowError>(
            EscrowError::InvalidMilestone,
        ),
{
    let mut total: i128 = 0;
    let mut i: usize = 0;
    while i < amounts.len()
        invariant
            0 <= i <= amounts@.len(),
            forall|j: int| 0 <= j < amounts@.len() ==> #[trigger] amounts@[j] > 0,
            total == amounts_total(amounts@.take(i as int)),
            0 <= total,
        decreases amounts@.len() - i,
    {
        let a = amounts[i];
        proof {
            lemma_amounts_prefix(amounts@, i as int);
        }
        if a > i128::MAX - total {
            proof {
                lemma_prefix_within_total(amounts@, i + 1);
            }
            return Err(EscrowError::InvalidMilestone);
        }
        total = total + a;
        i = i + 1;
    }
    proof {
        assert(amounts@.take(i as int) =~= amounts@);
    }
    Ok(total)
}

impl EscrowContract {
    /// The depositor opens an escrow at time `now` that pays `beneficiary`
    /// the amounts of `milestone_amounts` one by one, with `arbiter` to settle
    /// disputes and a deadline `duration` seconds away. On success the guard
    /// stays taken and the transfer of the total from the depositor into
    /// custody is returned; the escrow is stored, under the next id, by
    /// [`EscrowContract::settle`] once that transfer has been made.
    pub fn create(
        &mut self,
        depositor: Identity,
        beneficiary: Identity,
        arbiter: Identity,
        milestone_amounts: Vec<i128>,
        token: Identity,
        duration: u64,
        now: u64,
    ) -> (r: Result<Vec<Transfer>, EscrowError>)
        requires
            old(self).wf(),
        ensures
            final(self).wf(),
            (final(self)@, plan_view(r)) == create_step(
                old(self)@,
                depositor,
                beneficiary,
                arbiter,
                milestone_amounts@,
                token,
                duration,
                now,
            ),
    {
        if beneficiary == depositor {
            return Err(EscrowError::InvalidBeneficiary);
        }
        if arbiter == depositor || arbiter == beneficiary {
            return Err(EscrowError::InvalidArbiter);
        }
        if duration < MIN_DURATION || duration > MAX_DURATION {
            return Err(EscrowError::InvalidDuration);
        }
        if milestone_amounts.len() == 0 {
            return Err(EscrowError::InvalidMilestone);
        }
        let mut i: usize = 0;
        while i < milestone_amounts.len()
            invariant
                0 <= i <= milestone_amounts@.len(),
                forall|j: int| 0 <= j < i ==> #[trigger] milestone_amounts@[j] > 0,
                beneficiary != depositor,
                arbiter != depositor && arbiter != beneficiary,
                MIN_DURATION <= duration <= MAX_DURATION,
                milestone_amounts@.len() > 0,
                self@ == old(self)@,
                self.wf(),
            decreases milestone_amounts@.len() - i,
        {
            if milestone_amounts[i] <= 0 {
                proof {
                    assert(milestone_amounts@[i as int] <= 0);
                }
                return Err(EscrowError::ZeroAmount);
            }
            i = i + 1;
        }
        let total = match checked_total(&milestone_amounts) {
            Ok(t) => t,
            Err(err) => return Err(err),
        };
        if now > u64::MAX - duration {
            return Err(EscrowError::InvalidDeadline);
        }
        let deadline = now + duration;
        if self.pending.is_some() {
            return Err(EscrowError::Reentrancy);
        }
        if self.counter == u32::MAX {
            return Err(EscrowError::CounterOverflow);
        }
        let mut milestones: Vec<Milestone> = Vec::new();
        let mut k: usize = 0;
        while k < milestone_amounts.len()
            invariant
                0 <= k <= milestone_amounts@.len(),
                self@ == old(self)@,
                self.wf(),
                milestones@.len() == k,
                forall|j: int|
                    0 <= j < k ==> #[trigger] milestones@[j] == fresh_milestone(
                        milestone_amounts@[j],
                    ),
            decreases milestone_amounts@.len() - k,
        {
            milestones.push(
                Milestone {
                    description: MILESTONE_LABEL,
                    amount: milestone_amounts[k],
                    status: MilestoneStatus::NotStarted,
                    submitted_at: None,
                    approved_at: None,
                },
            );
            k = k + 1;
        }
        let record = EscrowData {
            depositor,
            beneficiary,
            arbiter,
            token,
            total_amount: total,
            paid_amount: 0,
            deadline,
            status: EscrowStatus::Pending,
            milestones,
            work_started: false,
        };
        proof {
            assert(milestones@ =~= Seq::new(
                milestone_amounts@.len(),
                |j: int| fresh_milestone(milestone_amounts@[j]),
            ));
            assert(creation_error(
                depositor,
                beneficiary,
                arbiter,
                milestone_amounts@,
                duration,
                now,
            ) is None);
            lemma_fresh_valid(
                depositor,
                beneficiary,
                arbiter,
                token,
                milestone_amounts@,
                duration,
                now,
            );
            assert(record@ =~= fresh_escrow(
                depositor,
                beneficiary,
                arbiter,
                token,
                milestone_amounts@,
                deadline,
            ));
        }
        let mut plan: Vec<Transfer> = Vec::new();
        plan.push(
            Transfer {
                token,
                from: Account::Holder(depositor),
                to: Account::Custody,
                amount: total,
            },
        );
        self.pending = Some(Pending::Create(record));
        proof {
            assert(self@.records =~= old(self)@.records);
        }
        Ok(plan)
    }

    /// Finishes the operation that holds the guard: where `transferred` says
    /// that all its transfers were made, its change is committed and what it
    /// did is returned; otherwise nothing changes but the guard and the
    /// result is `TransferFailed`. The guard is free afterwards.
    pub fn settle(&mut self, transferred: bool) -> (r: Result<Settled, EscrowError>)
        requires
            old(self).wf(),
            old(self)@.locked(),
        ensures
            final(self).wf(),
            !final(self)@.locked(),
            (final(self)@, r) == settle_step(old(self)@, transferred),
    {
        let ghost before = self@;
        let op = match self.pending.take() {
            Some(op) => op,
            None => return Err(EscrowError::TransferFailed),
        };
        if !transferred {
            proof {
                assert(self@.records =~= before.records);
            }
            return Err(EscrowError::TransferFailed);
        }
        match op {
            Pending::Create(record) => {
                let id = self.counter + 1;
                let created = EscrowCreated {
                    id,
                    depositor: record.depositor,
                    beneficiary: record.beneficiary,
                    amount: record.total_amount,
                };
                proof {
                    assert(record@.valid());
                }
                self.escrows.push(record);
                self.counter = id;
                proof {
                    assert(self@.records =~= before.records.push(record@));
                }
                Ok(Settled::Created(created))
            },
            Pending::Approve { id, index, at } => {
                let idx = (id - 1) as usize;
                let amount = self.escrows[idx].milestones[index as usize].amount;
                let ghost e = before.records[idx as int];
                self.escrows[idx].mark_approved(index, at);
                proof {
                    assert(self@.records =~= before.records.update(
                        idx as int,
                        e.approved(index, at),
                    ));
                }
                Ok(Settled::Approved(MilestoneApproved { id, milestone_index: index, amount }))
            },
            Pending::Resolve { id, index, pay } => {
                let idx = (id - 1) as usize;
                let ghost e = before.records[idx as int];
                self.escrows[idx].mark_resolved(index, pay);
                proof {
                    assert(self@.records =~= before.records.update(
                        idx as int,
                        e.resolved(index, pay),
                    ));
                }
                Ok(Settled::Resolved { id, milestone_index: index })
            },
            Pending::Refund { id } => {
                let idx = (id - 1) as usize;
                let ghost e = before.records[idx as int];
                self.escrows[idx].mark_refunded();
                proof {
                    assert(self@.records =~= before.records.update(idx as int, e.refunded()));
                }
                Ok(Settled::Refunded { id })
            },
        }
    }
}

} // verus!
