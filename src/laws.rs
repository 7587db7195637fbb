use vstd::prelude::*;

use crate::model::{amounts_total, fresh_escrow, milestones_total, EscrowView};
use crate::state::{
    approve_step, create_step, dispute_step, refund_step, resolve_step, settle_step,
    start_work_step, submit_step, ContractView, PendingOp,
};
use crate::transitions::{
    lemma_approved_valid, lemma_disputed_valid, lemma_fresh_valid, lemma_paid_within_total,
    lemma_refunded_valid, lemma_resolved_valid, lemma_started_valid, lemma_submitted_valid,
};
use crate::types::{Account, EscrowError, Identity, MilestoneStatus, Transfer};

verus! {

/// Any call a caller can make on the contract, with its arguments.
pub enum Operation {
    Create {
        depositor: Identity,
        beneficiary: Identity,
        arbiter: Identity,
        amounts: Seq<i128>,
        token: Identity,
        duration: u64,
        now: u64,
    },
    StartWork { caller: Identity, id: u32, now: u64 },
    Submit { caller: Identity, id: u32, index: u32, now: u64 },
    Approve { caller: Identity, id: u32, index: u32, now: u64 },
    Dispute { caller: Identity, id: u32, index: u32 },
    Resolve { caller: Identity, id: u32, index: u32, pay: i128 },
    Refund { caller: Identity, id: u32, now: u64 },
    Settle { transferred: bool },
}

/// The contract after `op`, whether it succeeded or failed.
pub open spec fn apply(s: ContractView, op: Operation) -> ContractView {
    match op {
        Operation::Create { depositor, beneficiary, arbiter, amounts, token, duration, now } =>
            create_step(s, depositor, beneficiary, arbiter, amounts, token, duration, now).0,
        Operation::StartWork { caller, id, now } => start_work_step(s, caller, id, now).0,
        Operation::Submit { caller, id, index, now } => submit_step(s, caller, id, index, now).0,
        Operation::Approve { caller, id, index, now } => approve_step(s, caller, id, index, now).0,
        Operation::Dispute { caller, id, index } => dispute_step(s, caller, id, index).0,
        Operation::Resolve { caller, id, index, pay } => resolve_step(s, caller, id, index, pay).0,
        Operation::Refund { caller, id, now } => refund_step(s, caller, id, now).0,
        Operation::Settle { transferred } => settle_step(s, transferred).0,
    }
}

/// The contract after the operations `ops`, in order.
pub open spec fn run(s: ContractView, ops: Seq<Operation>) -> ContractView
    decreases ops.len(),
{
    if ops.len() == 0 {
        s
    } else {
        apply(run(s, ops.drop_last()), ops.last())
    }
}

/// Whether every record of `s` has paid out no more than its total.
pub open spec fn paid_within_totals(s: ContractView) -> bool {
    forall|i: int|
        0 <= i < s.records.len() ==> 0 <= (#[trigger] s.records[i]).paid_amount
            <= s.records[i].total_amount
}

proof fn lemma_evolves_refl(e: EscrowView)
    ensures
        e.evolves_to(e),
{
}

proof fn lemma_evolves_trans(a: EscrowView, b: EscrowView, c: EscrowView)
    requires
        a.evolves_to(b),
        b.evolves_to(c),
    ensures
        a.evolves_to(c),
{
    assert forall|i: int| 0 <= i < a.milestones.len() implies (#[trigger] c.milestones[i]).amount
        == a.milestones[i].amount by {
        assert(b.milestones[i].amount == a.milestones[i].amount);
    }
}

/// Replacing the record under `id`, while the guard is free, by a valid one
/// it evolves to keeps the contract well formed and advancing.
proof fn lemma_replace_record(s: ContractView, id: u32, n: EscrowView)
    requires
        s.wf(),
        !s.locked(),
        s.record(id) is Some,
        n.valid(),
        s.records[id - 1].evolves_to(n),
    ensures
        s.with_record(id, n).wf(),
        s.advances_to(s.with_record(id, n)),
{
    let t = s.with_record(id, n);
    assert forall|i: int| 0 <= i < s.records.len() implies (#[trigger] s.records[i]).evolves_to(
        t.records[i],
    ) by {
        if i != id - 1 {
            lemma_evolves_refl(s.records[i]);
        }
    }
}

/// A step that only takes the guard for an operation that can commit keeps
/// the contract well formed and advancing.
proof fn lemma_await(s: ContractView, op: PendingOp)
    requires
        s.wf(),
        !s.locked(),
        s.pending_ok(op),
    ensures
        s.awaiting(op).wf(),
        s.advances_to(s.awaiting(op)),
{
    assert forall|i: int| 0 <= i < s.records.len() implies (#[trigger] s.records[i]).evolves_to(
        s.awaiting(op).records[i],
    ) by {
        lemma_evolves_refl(s.records[i]);
    }
}

proof fn lemma_unchanged(s: ContractView)
    ensures
        s.advances_to(s),
{
    assert forall|i: int| 0 <= i < s.records.len() implies (#[trigger] s.records[i]).evolves_to(
        s.records[i],
    ) by {
        lemma_evolves_refl(s.records[i]);
    }
}

proof fn lemma_paid_within_totals(s: ContractView)
    requires
        s.wf(),
    ensures
        paid_within_totals(s),
{
    assert forall|i: int| 0 <= i < s.records.len() implies 0 <= (#[trigger] s.records[
        i]).paid_amount <= s.records[i].total_amount by {
        lemma_paid_within_total(s.records[i]);
    }
}

/// Every operation, whether it succeeds or fails, keeps the contract well
/// formed; no record is lost; each record keeps its parties, token, amounts
/// and deadline; its paid amount never decreases and never exceeds its total;
/// started work stays started; and a refunded record no longer changes.
pub proof fn lemma_operation_preserves(s: ContractView, op: Operation)
    requires
        s.wf(),
    ensures
        apply(s, op).wf(),
        s.advances_to(apply(s, op)),
        paid_within_totals(apply(s, op)),
{
    lemma_unchanged(s);
    match op {
        Operation::Create { depositor, beneficiary, arbiter, amounts, token, duration, now } => {
            let r = create_step(s, depositor, beneficiary, arbiter, amounts, token, duration, now);
            if r.1 is Ok {
                lemma_fresh_valid(depositor, beneficiary, arbiter, token, amounts, duration, now);
                let e = fresh_escrow(
                    depositor,
                    beneficiary,
                    arbiter,
                    token,
                    amounts,
                    (now + duration) as u64,
                );
                lemma_await(s, PendingOp::Create(e));
            }
        },
        Operation::StartWork { caller, id, now } => {
            if start_work_step(s, caller, id, now).1 is Ok {
                lemma_started_valid(s.records[id - 1], caller);
                lemma_replace_record(s, id, s.records[id - 1].started());
            }
        },
        Operation::Submit { caller, id, index, now } => {
            if submit_step(s, caller, id, index, now).1 is Ok {
                lemma_submitted_valid(s.records[id - 1], caller, index, now);
                lemma_replace_record(s, id, s.records[id - 1].submitted(index, now));
            }
        },
        Operation::Approve { caller, id, index, now } => {
            if approve_step(s, caller, id, index, now).1 is Ok {
                lemma_await(s, PendingOp::Approve { id, index, at: now });
            }
        },
        Operation::Dispute { caller, id, index } => {
            if dispute_step(s, caller, id, index).1 is Ok {
                lemma_disputed_valid(s.records[id - 1], caller, index);
                lemma_replace_record(s, id, s.records[id - 1].disputed(index));
            }
        },
        Operation::Resolve { caller, id, index, pay } => {
            if resolve_step(s, caller, id, index, pay).1 is Ok {
                lemma_await(s, PendingOp::Resolve { id, index, pay });
            }
        },
        Operation::Refund { caller, id, now } => {
            if refund_step(s, caller, id, now).1 is Ok {
                lemma_await(s, PendingOp::Refund { id });
            }
        },
        Operation::Settle { transferred } => {
            match s.pending {
                None => {},
                Some(p) => {
                    if !transferred {
                        lemma_unchanged(s.released());
                    } else {
                        let u = s.released();
                        match p {
                            PendingOp::Create(e) => {
                                let t = settle_step(s, true).0;
                                assert forall|i: int| 0 <= i < s.records.len() implies (
                                #[trigger] s.records[i]).evolves_to(t.records[i]) by {
                                    lemma_evolves_refl(s.records[i]);
                                }
                                assert forall|i: int| 0 <= i < t.records.len() implies (
                                #[trigger] t.records[i]).valid() by {
                                    if i < s.records.len() {
                                        assert(t.records[i] == s.records[i]);
                                    }
                                }
                            },
                            PendingOp::Approve { id, index, at } => {
                                let e = s.records[id - 1];
                                lemma_approved_valid(e, e.depositor, index, at);
                                lemma_replace_record(u, id, e.approved(index, at));
                            },
                            PendingOp::Resolve { id, index, pay } => {
                                let e = s.records[id - 1];
                                lemma_resolved_valid(e, e.arbiter, index, pay);
                                lemma_replace_record(u, id, e.resolved(index, pay));
                            },
                            PendingOp::Refund { id } => {
                                let e = s.records[id - 1];
                                lemma_refunded_valid(e);
                                lemma_replace_record(u, id, e.refunded());
                            },
                        }
                    }
                },
            }
        },
    }
    lemma_paid_within_totals(apply(s, op));
}

/// Over any sequence of operations, successful or not, what
/// [`lemma_operation_preserves`] states of one operation holds from the first
/// state to the last: in particular the paid amount of every escrow never
/// decreases and never exceeds its total, and started work stays started.
pub proof fn lemma_lifetime(s: ContractView, ops: Seq<Operation>)
    requires
        s.wf(),
    ensures
        run(s, ops).wf(),
        s.advances_to(run(s, ops)),
        paid_within_totals(run(s, ops)),
    decreases ops.len(),
{
    if ops.len() == 0 {
        lemma_unchanged(s);
        lemma_paid_within_totals(s);
    } else {
        let mid = run(s, ops.drop_last());
        lemma_lifetime(s, ops.drop_last());
        lemma_operation_preserves(mid, ops.last());
        let last = run(s, ops);
        assert forall|i: int| 0 <= i < s.records.len() implies (#[trigger] s.records[
            i]).evolves_to(last.records[i]) by {
            lemma_evolves_trans(s.records[i], mid.records[i], last.records[i]);
        }
    }
}

/// A creation that goes through asks for exactly one transfer, of the sum of
/// the milestone amounts, from the depositor into custody; once it is made,
/// the stored escrow holds that sum as its total, which is the sum of its
/// milestones, and has paid nothing.
pub proof fn lemma_creation_funds_total(
    s: ContractView,
    depositor: Identity,
    beneficiary: Identity,
    arbiter: Identity,
    amounts: Seq<i128>,
    token: Identity,
    duration: u64,
    now: u64,
)
    requires
        s.wf(),
        create_step(s, depositor, beneficiary, arbiter, amounts, token, duration, now).1 is Ok,
    ensures
        ({
            let (s1, r) = create_step(
                s,
                depositor,
                beneficiary,
                arbiter,
                amounts,
                token,
                duration,
                now,
            );
            &&& r == Ok::<Seq<Transfer>, EscrowError>(
                seq![
                    Transfer {
                        token,
                        from: Account::Holder(depositor),
                        to: Account::Custody,
                        amount: amounts_total(amounts) as i128,
                    },
                ],
            )
            &&& settle_step(s1, true).0.record((s.counter + 1) as u32) matches Some(e)
                && e.total_amount == amounts_total(amounts) && e.total_amount == milestones_total(
                e.milestones,
            ) && e.paid_amount == 0
        }),
{
    lemma_fresh_valid(depositor, beneficiary, arbiter, token, amounts, duration, now);
}

/// Once work has started on an escrow, the depositor's refund fails with
/// `WorkStarted`, whenever it is asked for, while no other operation holds
/// the guard.
pub proof fn lemma_no_refund_after_start(s: ContractView, caller: Identity, id: u32, now: u64)
    requires
        s.wf(),
        !s.locked(),
        s.record(id) matches Some(e) && e.work_started && caller == e.depositor,
    ensures
        refund_step(s, caller, id, now) == (s, Err::<Seq<Transfer>, EscrowError>(
            EscrowError::WorkStarted,
        )),
{
}

/// The depositor's approval of a milestone that is not submitted fails with
/// `MilestoneNotSubmitted` and changes nothing.
pub proof fn lemma_approve_needs_submission(
    s: ContractView,
    caller: Identity,
    id: u32,
    index: u32,
    now: u64,
)
    requires
        s.wf(),
        !s.locked(),
        s.record(id) matches Some(e) && caller == e.depositor && e.has_milestone(index)
            && e.milestone(index).status != MilestoneStatus::Submitted,
    ensures
        approve_step(s, caller, id, index, now) == (s, Err::<Seq<Transfer>, EscrowError>(
            EscrowError::MilestoneNotSubmitted,
        )),
{
}

/// Approving the same milestone twice fails the second time: with
/// `Reentrancy` while the first approval waits for its payment, and with
/// `MilestoneNotSubmitted` once it has been paid.
pub proof fn lemma_approve_twice(
    s: ContractView,
    caller: Identity,
    id: u32,
    index: u32,
    now: u64,
    later: u64,
)
    requires
        s.wf(),
        approve_step(s, caller, id, index, now).1 is Ok,
    ensures
        approve_step(approve_step(s, caller, id, index, now).0, caller, id, index, later).1
            == Err::<Seq<Transfer>, EscrowError>(EscrowError::Reentrancy),
        approve_step(
            settle_step(approve_step(s, caller, id, index, now).0, true).0,
            caller,
            id,
            index,
            later,
        ).1 == Err::<Seq<Transfer>, EscrowError>(EscrowError::MilestoneNotSubmitted),
{
    let e = s.records[id - 1];
    assert(e.approved(index, now).milestones[index as int].status == MilestoneStatus::Approved);
}

/// A dispute resolution whose payment to the beneficiary lies outside zero
/// to the milestone's amount fails with `InvalidMilestone`, asks for no
/// transfer and changes nothing.
pub proof fn lemma_resolve_bounds(s: ContractView, caller: Identity, id: u32, index: u32, pay: i128)
    requires
        s.wf(),
        !s.locked(),
        s.record(id) matches Some(e) && caller == e.arbiter && e.has_milestone(index)
            && e.milestone(index).status == MilestoneStatus::Disputed && (pay < 0 || pay
            > e.milestone(index).amount),
    ensures
        resolve_step(s, caller, id, index, pay) == (s, Err::<Seq<Transfer>, EscrowError>(
            EscrowError::InvalidMilestone,
        )),
{
}

/// A creation whose transfer fails leaves the contract as it was: no record
/// under the id it would have received, and that id still the next one.
pub proof fn lemma_failed_creation_leaves_nothing(
    s: ContractView,
    depositor: Identity,
    beneficiary: Identity,
    arbiter: Identity,
    amounts: Seq<i128>,
    token: Identity,
    duration: u64,
    now: u64,
)
    requires
        s.wf(),
        create_step(s, depositor, beneficiary, arbiter, amounts, token, duration, now).1 is Ok,
    ensures
        ({
            let s1 = create_step(
                s,
                depositor,
                beneficiary,
                arbiter,
                amounts,
                token,
                duration,
                now,
            ).0;
            let s2 = settle_step(s1, false).0;
            &&& s2 == s
            &&& s.next_id() matches Ok(id) && s2.record(id) is None
            &&& s2.next_id() == s.next_id()
        }),
{
}

} // verus!
