use vstd::prelude::*;

use crate::model::{creation_error, fresh_escrow, EscrowView};
use crate::types::{
    Account, EscrowCreated, EscrowError, EscrowStatus, Identity, MilestoneApproved,
    MilestoneSubmitted, Settled, Transfer, WorkStarted,
};

verus! {

/// An operation that has taken the reentrancy guard and waits for its
/// transfers before it commits.
pub enum PendingOp {
    Create(EscrowView),
    Approve { id: u32, index: u32, at: u64 },
    Resolve { id: u32, index: u32, pay: i128 },
    Refund { id: u32 },
}

/// The mathematical value of the whole contract: the stored records (the one
/// with id `k` at position `k - 1`), the persisted id counter, and the
/// operation that holds the reentrancy guard, if any.
pub struct ContractView {
    pub records: Seq<EscrowView>,
    pub counter: u32,
    pub pending: Option<PendingOp>,
}

impl ContractView {
    /// The record stored under `id`, if any.
    pub open spec fn record(self, id: u32) -> Option<EscrowView> {
        if 1 <= id <= self.records.len() {
            Some(self.records[id - 1])
        } else {
            None
        }
    }

    /// Whether the reentrancy guard is held.
    pub open spec fn locked(self) -> bool {
        self.pending is Some
    }

    /// The id that the next successful creation receives.
    pub open spec fn next_id(self) -> Result<u32, EscrowError> {
        if self.counter == u32::MAX {
            Err(EscrowError::CounterOverflow)
        } else {
            Ok((self.counter + 1) as u32)
        }
    }

    /// The guard taken, and `op` waiting for its transfers.
    pub open spec fn awaiting(self, op: PendingOp) -> ContractView {
        ContractView { pending: Some(op), ..self }
    }

    /// The guard released.
    pub open spec fn released(self) -> ContractView {
        ContractView { pending: None, ..self }
    }

    /// The record under `id` replaced by `e`.
    pub open spec fn with_record(self, id: u32, e: EscrowView) -> ContractView {
        ContractView { records: self.records.update(id - 1, e), ..self }
    }

    /// The record under `id` for a mutating operation: the guard must be free
    /// and the record must exist.
    pub open spec fn guarded(self, id: u32) -> Result<EscrowView, EscrowError> {
        if self.locked() {
            Err(EscrowError::Reentrancy)
        } else {
            match self.record(id) {
                Some(e) => Ok(e),
                None => Err(EscrowError::EscrowNotFound),
            }
        }
    }

    /// Whether a waiting operation can still commit: what it was checked
    /// against still holds.
    pub open spec fn pending_ok(self, op: PendingOp) -> bool {
        match op {
            PendingOp::Create(e) => e.valid() && self.counter < u32::MAX,
            PendingOp::Approve { id, index, .. } => self.record(id) matches Some(e)
                && e.decision_error(e.depositor, index) is None,
            PendingOp::Resolve { id, index, pay } => self.record(id) matches Some(e)
                && e.resolve_error(e.arbiter, index, pay) is None,
            PendingOp::Refund { id } => self.record(id) matches Some(e) && !e.work_started
                && e.status == EscrowStatus::Pending,
        }
    }

    /// The invariant of the contract: one record per id handed out, each
    /// valid, and a waiting operation that can still commit.
    pub open spec fn wf(self) -> bool {
        &&& self.records.len() == self.counter
        &&& forall|i: int| 0 <= i < self.records.len() ==> (#[trigger] self.records[i]).valid()
        &&& match self.pending {
            Some(op) => self.pending_ok(op),
            None => true,
        }
    }

    /// No record is lost, and each one evolves as records may.
    pub open spec fn advances_to(self, next: ContractView) -> bool {
        &&& self.records.len() <= next.records.len()
        &&& forall|i: int|
            0 <= i < self.records.len() ==> (#[trigger] self.records[i]).evolves_to(
                next.records[i],
            )
    }
}

/// `create`: validate, take the guard, reserve the next id, and ask for the
/// total to be moved from the depositor into custody.
pub open spec fn create_step(
    s: ContractView,
    depositor: Identity,
    beneficiary: Identity,
    arbiter: Identity,
    amounts: Seq<i128>,
    token: Identity,
    duration: u64,
    now: u64,
) -> (ContractView, Result<Seq<Transfer>, EscrowError>) {
    match creation_error(depositor, beneficiary, arbiter, amounts, duration, now) {
        Some(err) => (s, Err(err)),
        None => if s.locked() {
            (s, Err(EscrowError::Reentrancy))
        } else if s.next_id() is Err {
            (s, Err(EscrowError::CounterOverflow))
        } else {
            let e = fresh_escrow(
                depositor,
                beneficiary,
                arbiter,
                token,
                amounts,
                (now + duration) as u64,
            );
            (
                s.awaiting(PendingOp::Create(e)),
                Ok(seq![e.payment(Account::Holder(depositor), Account::Custody, e.total_amount)]),
            )
        },
    }
}

/// `start_work`: the beneficiary starts work, which ends the refund window.
pub open spec fn start_work_step(s: ContractView, caller: Identity, id: u32, now: u64) -> (
    ContractView,
    Result<WorkStarted, EscrowError>,
) {
    match s.guarded(id) {
        Err(err) => (s, Err(err)),
        Ok(e) => match e.start_work_error(caller) {
            Some(err) => (s, Err(err)),
            None => (s.with_record(id, e.started()), Ok(WorkStarted { id, started_at: now })),
        },
    }
}

/// `submit_milestone`: the beneficiary hands a milestone in for approval.
pub open spec fn submit_step(
    s: ContractView,
    caller: Identity,
    id: u32,
    index: u32,
    now: u64,
) -> (ContractView, Result<MilestoneSubmitted, EscrowError>) {
    match s.guarded(id) {
        Err(err) => (s, Err(err)),
        Ok(e) => match e.submit_error(caller, index) {
            Some(err) => (s, Err(err)),
            None => (
                s.with_record(id, e.submitted(index, now)),
                Ok(MilestoneSubmitted { id, milestone_index: index }),
            ),
        },
    }
}

/// `approve_milestone`: the depositor accepts a submitted milestone; its
/// amount is to be paid to the beneficiary.
pub open spec fn approve_step(
    s: ContractView,
    caller: Identity,
    id: u32,
    index: u32,
    now: u64,
) -> (ContractView, Result<Seq<Transfer>, EscrowError>) {
    match s.guarded(id) {
        Err(err) => (s, Err(err)),
        Ok(e) => match e.decision_error(caller, index) {
            Some(err) => (s, Err(err)),
            None => (
                s.awaiting(PendingOp::Approve { id, index, at: now }),
                Ok(e.approval_transfers(index)),
            ),
        },
    }
}

/// `dispute_milestone`: the depositor contests a submitted milestone.
pub open spec fn dispute_step(s: ContractView, caller: Identity, id: u32, index: u32) -> (
    ContractView,
    Result<(), EscrowError>,
) {
    match s.guarded(id) {
        Err(err) => (s, Err(err)),
        Ok(e) => match e.decision_error(caller, index) {
            Some(err) => (s, Err(err)),
            None => (s.with_record(id, e.disputed(index)), Ok(())),
        },
    }
}

/// `resolve_milestone_dispute`: the arbiter splits a disputed milestone.
pub open spec fn resolve_step(
    s: ContractView,
    caller: Identity,
    id: u32,
    index: u32,
    pay: i128,
) -> (ContractView, Result<Seq<Transfer>, EscrowError>) {
    match s.guarded(id) {
        Err(err) => (s, Err(err)),
        Ok(e) => match e.resolve_error(caller, index, pay) {
            Some(err) => (s, Err(err)),
            None => (
                s.awaiting(PendingOp::Resolve { id, index, pay }),
                Ok(e.resolution_transfers(index, pay)),
            ),
        },
    }
}

/// `refund`: the depositor takes the funds back before work starts and
/// before the deadline.
pub open spec fn refund_step(s: ContractView, caller: Identity, id: u32, now: u64) -> (
    ContractView,
    Result<Seq<Transfer>, EscrowError>,
) {
    match s.guarded(id) {
        Err(err) => (s, Err(err)),
        Ok(e) => match e.refund_error(caller, now) {
            Some(err) => (s, Err(err)),
            None => (s.awaiting(PendingOp::Refund { id }), Ok(e.refund_transfers())),
        },
    }
}

/// `settle`: commit the waiting operation if its transfers went through,
/// drop it otherwise; the guard is released either way.
pub open spec fn settle_step(s: ContractView, transferred: bool) -> (
    ContractView,
    Result<Settled, EscrowError>,
) {
    match s.pending {
        None => (s, Err(EscrowError::TransferFailed)),
        Some(op) => if !transferred {
            (s.released(), Err(EscrowError::TransferFailed))
        } else {
            match op {
                PendingOp::Create(e) => {
                    let id = (s.counter + 1) as u32;
                    (
                        ContractView { records: s.records.push(e), counter: id, pending: None },
                        Ok(
                            Settled::Created(
                                EscrowCreated {
                                    id,
                                    depositor: e.depositor,
                                    beneficiary: e.beneficiary,
                                    amount: e.total_amount,
                                },
                            ),
                        ),
                    )
                },
                PendingOp::Approve { id, index, at } => {
                    let e = s.records[id - 1];
                    (
                        s.released().with_record(id, e.approved(index, at)),
                        Ok(
                            Settled::Approved(
                                MilestoneApproved {
                                    id,
                                    milestone_index: index,
                                    amount: e.milestone(index).amount,
                                },
                            ),
                        ),
                    )
                },
                PendingOp::Resolve { id, index, pay } => {
                    let e = s.records[id - 1];
                    (
                        s.released().with_record(id, e.resolved(index, pay)),
                        Ok(Settled::Resolved { id, milestone_index: index }),
                    )
                },
                PendingOp::Refund { id } => {
                    let e = s.records[id - 1];
                    (s.released().with_record(id, e.refunded()), Ok(Settled::Refunded { id }))
                },
            }
        },
    }
}

} // verus!
