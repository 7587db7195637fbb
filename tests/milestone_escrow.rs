use std::collections::HashMap;

use stellapay::lease::{escrow_lease, COUNTER_LEASE, LEASE_BUFFER};
use stellapay::model::{MAX_DURATION, MIN_DURATION};
use stellapay::{
    Account, EscrowContract, EscrowCreated, EscrowData, EscrowError, EscrowStatus, Identity,
    MilestoneApproved, MilestoneStatus, MilestoneSubmitted, Settled, Transfer, WorkStarted,
};

fn party(n: u128) -> Identity {
    Identity { is_contract: false, high: 0, low: n }
}

/// A contract, a token ledger that carries out the transfers it asks for, and
/// three parties, the depositor holding 100 000 units.
struct TestFixture {
    contract: EscrowContract,
    balances: HashMap<Account, i128>,
    depositor: Identity,
    beneficiary: Identity,
    arbiter: Identity,
    token: Identity,
    now: u64,
    fail_transfers: bool,
}

impl TestFixture {
    fn new() -> Self {
        let depositor = party(1);
        let mut balances = HashMap::new();
        balances.insert(Account::Holder(depositor), 100_000);
        TestFixture {
            contract: EscrowContract::new(),
            balances,
            depositor,
            beneficiary: party(2),
            arbiter: party(3),
            token: Identity { is_contract: true, high: 7, low: 7 },
            now: 0,
            fail_transfers: false,
        }
    }

    fn balance(&self, who: Identity) -> i128 {
        *self.balances.get(&Account::Holder(who)).unwrap_or(&0)
    }

    fn custody(&self) -> i128 {
        *self.balances.get(&Account::Custody).unwrap_or(&0)
    }

    /// Carries out the transfers of a first phase, all or none, and settles.
    fn perform(&mut self, plan: Result<Vec<Transfer>, EscrowError>) -> Result<Settled, EscrowError> {
        let plan = plan?;
        assert!(self.contract.is_locked());
        let mut ok = !self.fail_transfers;
        let mut next = self.balances.clone();
        for t in &plan {
            assert_eq!(t.token, self.token);
            let from = *next.get(&t.from).unwrap_or(&0);
            if from < t.amount {
                ok = false;
            }
            next.insert(t.from, from - t.amount);
            let to = *next.get(&t.to).unwrap_or(&0);
            next.insert(t.to, to + t.amount);
        }
        if ok {
            self.balances = next;
        }
        let r = self.contract.settle(ok);
        assert!(!self.contract.is_locked());
        r
    }

    fn try_create(&mut self, amounts: &[i128], duration: u64) -> Result<u32, EscrowError> {
        let (d, b, a, t) = (self.depositor, self.beneficiary, self.arbiter, self.token);
        self.try_create_with(d, b, a, amounts, t, duration)
    }

    fn try_create_with(
        &mut self,
        depositor: Identity,
        beneficiary: Identity,
        arbiter: Identity,
        amounts: &[i128],
        token: Identity,
        duration: u64,
    ) -> Result<u32, EscrowError> {
        let plan = self.contract.create(
            depositor,
            beneficiary,
            arbiter,
            amounts.to_vec(),
            token,
            duration,
            self.now,
        );
        match self.perform(plan)? {
            Settled::Created(ev) => Ok(ev.id),
            other => panic!("unexpected settlement {:?}", other),
        }
    }

    fn create(&mut self, amounts: &[i128], duration: u64) -> u32 {
        self.try_create(amounts, duration).unwrap()
    }

    fn start_work(&mut self, caller: Identity, id: u32) -> Result<WorkStarted, EscrowError> {
        self.contract.start_work(caller, id, self.now)
    }

    fn submit(&mut self, caller: Identity, id: u32, index: u32) -> Result<MilestoneSubmitted, EscrowError> {
        self.contract.submit_milestone(caller, id, index, self.now)
    }

    fn approve(&mut self, caller: Identity, id: u32, index: u32) -> Result<Settled, EscrowError> {
        let plan = self.contract.approve_milestone(caller, id, index, self.now);
        self.perform(plan)
    }

    fn dispute(&mut self, caller: Identity, id: u32, index: u32) -> Result<(), EscrowError> {
        self.contract.dispute_milestone(caller, id, index)
    }

    fn resolve(&mut self, caller: Identity, id: u32, index: u32, pay: i128) -> Result<Settled, EscrowError> {
        let plan = self.contract.resolve_milestone_dispute(caller, id, index, pay);
        self.perform(plan)
    }

    fn refund(&mut self, caller: Identity, id: u32) -> Result<Settled, EscrowError> {
        let plan = self.contract.refund(caller, id, self.now);
        self.perform(plan)
    }

    fn escrow(&self, id: u32) -> &EscrowData {
        self.contract.get_escrow(id).unwrap()
    }
}

// Happy paths

#[test]
fn test_create_escrow_with_milestones() {
    let mut f = TestFixture::new();
    let id = f.create(&[500, 1000, 1500], 7200);

    assert_eq!(id, 1);
    assert_eq!(f.custody(), 3000);

    let escrow = f.escrow(id);
    assert_eq!(escrow.status, EscrowStatus::Pending);
    assert_eq!(escrow.total_amount, 3000);
    assert_eq!(escrow.paid_amount, 0);
    assert_eq!(escrow.milestones.len(), 3);
}

#[test]
fn test_milestone_submit_and_approve_flow() {
    let mut f = TestFixture::new();
    let id = f.create(&[500, 1000], 7200);
    let (d, b) = (f.depositor, f.beneficiary);

    f.start_work(b, id).unwrap();

    f.submit(b, id, 0).unwrap();
    assert_eq!(f.escrow(id).milestones[0].status, MilestoneStatus::Submitted);
    assert_eq!(f.balance(b), 0);

    f.approve(d, id, 0).unwrap();
    assert_eq!(f.balance(b), 500);

    let escrow = f.escrow(id);
    assert_eq!(escrow.milestones[0].status, MilestoneStatus::Approved);
    assert_eq!(escrow.paid_amount, 500);
}

#[test]
fn test_refund_before_work_starts() {
    let mut f = TestFixture::new();
    let d = f.depositor;
    let initial = f.balance(d);
    let id = f.create(&[1000], 7200);

    f.refund(d, id).unwrap();

    let escrow = f.escrow(id);
    assert_eq!(escrow.status, EscrowStatus::Refunded);
    assert_eq!(f.balance(d), initial);
}

#[test]
fn test_dispute_and_resolution() {
    let mut f = TestFixture::new();
    let id = f.create(&[1000], 7200);
    let (d, b, a) = (f.depositor, f.beneficiary, f.arbiter);

    f.start_work(b, id).unwrap();
    f.submit(b, id, 0).unwrap();
    f.dispute(d, id, 0).unwrap();

    let escrow = f.escrow(id);
    assert_eq!(escrow.status, EscrowStatus::Disputed);
    assert_eq!(escrow.milestones[0].status, MilestoneStatus::Disputed);

    f.resolve(a, id, 0, 700).unwrap();

    assert_eq!(f.balance(b), 700);
    assert_eq!(f.balance(d), 100_000 - 1000 + 300);
}

// Errors

#[test]
fn test_cannot_refund_after_work_starts() {
    let mut f = TestFixture::new();
    let id = f.create(&[1000], 7200);
    let (d, b) = (f.depositor, f.beneficiary);

    f.start_work(b, id).unwrap();
    let result = f.refund(d, id);

    assert!(result.is_err());
    assert_eq!(result.unwrap_err(), EscrowError::WorkStarted);
}

#[test]
fn test_only_beneficiary_can_submit_milestone() {
    let mut f = TestFixture::new();
    let id = f.create(&[1000], 7200);
    let (d, b) = (f.depositor, f.beneficiary);

    f.start_work(b, id).unwrap();
    let result = f.submit(d, id, 0);

    assert!(result.is_err());
    assert_eq!(result.unwrap_err(), EscrowError::NotAuthorized);
}

#[test]
fn test_only_depositor_can_approve_milestone() {
    let mut f = TestFixture::new();
    let id = f.create(&[1000], 7200);
    let b = f.beneficiary;

    f.start_work(b, id).unwrap();
    f.submit(b, id, 0).unwrap();
    let result = f.approve(b, id, 0);

    assert!(result.is_err());
    assert_eq!(result.unwrap_err(), EscrowError::NotAuthorized);
}

#[test]
fn test_cannot_approve_unsubmitted_milestone() {
    let mut f = TestFixture::new();
    let id = f.create(&[1000], 7200);
    let (d, b) = (f.depositor, f.beneficiary);

    f.start_work(b, id).unwrap();
    let result = f.approve(d, id, 0);

    assert!(result.is_err());
    assert_eq!(result.unwrap_err(), EscrowError::MilestoneNotSubmitted);
}

#[test]
fn test_cannot_submit_milestone_twice() {
    let mut f = TestFixture::new();
    let id = f.create(&[1000], 7200);
    let b = f.beneficiary;

    f.start_work(b, id).unwrap();
    f.submit(b, id, 0).unwrap();
    let result = f.submit(b, id, 0);

    assert!(result.is_err());
    assert_eq!(result.unwrap_err(), EscrowError::MilestoneAlreadySubmitted);
}

#[test]
fn test_cannot_dispute_unsubmitted_milestone() {
    let mut f = TestFixture::new();
    let id = f.create(&[1000], 7200);
    let (d, b) = (f.depositor, f.beneficiary);

    f.start_work(b, id).unwrap();
    let result = f.dispute(d, id, 0);

    assert!(result.is_err());
    assert_eq!(result.unwrap_err(), EscrowError::MilestoneNotSubmitted);
}

#[test]
fn test_only_arbiter_can_resolve_dispute() {
    let mut f = TestFixture::new();
    let id = f.create(&[1000], 7200);
    let (d, b) = (f.depositor, f.beneficiary);

    f.start_work(b, id).unwrap();
    f.submit(b, id, 0).unwrap();
    f.dispute(d, id, 0).unwrap();
    let result = f.resolve(d, id, 0, 500);

    assert!(result.is_err());
    assert_eq!(result.unwrap_err(), EscrowError::NotAuthorized);
}

#[test]
fn test_empty_milestones_error() {
    let mut f = TestFixture::new();
    let result = f.try_create(&[], 7200);

    assert!(result.is_err());
    assert_eq!(result.unwrap_err(), EscrowError::InvalidMilestone);
}

#[test]
fn test_invalid_arbiter_dispute_resolution_amount() {
    let mut f = TestFixture::new();
    let id = f.create(&[1000], 7200);
    let (d, b, a) = (f.depositor, f.beneficiary, f.arbiter);

    f.start_work(b, id).unwrap();
    f.submit(b, id, 0).unwrap();
    f.dispute(d, id, 0).unwrap();
    let result = f.resolve(a, id, 0, 1500);

    assert!(result.is_err());
    assert_eq!(result.unwrap_err(), EscrowError::InvalidMilestone);
}

// Whole workflows

#[test]
fn test_full_successful_workflow() {
    let mut f = TestFixture::new();
    let (d, b) = (f.depositor, f.beneficiary);
    let initial_depositor = f.balance(d);
    let id = f.create(&[1000, 2000, 1500], 7200);

    assert_eq!(f.balance(d), initial_depositor - 4500);

    f.start_work(b, id).unwrap();

    f.submit(b, id, 0).unwrap();
    f.approve(d, id, 0).unwrap();
    assert_eq!(f.balance(b), 1000);

    f.submit(b, id, 1).unwrap();
    f.approve(d, id, 1).unwrap();
    assert_eq!(f.balance(b), 3000);

    f.submit(b, id, 2).unwrap();
    f.approve(d, id, 2).unwrap();
    assert_eq!(f.balance(b), 4500);

    assert_eq!(f.escrow(id).paid_amount, 4500);
}

#[test]
fn test_mixed_approval_and_dispute() {
    let mut f = TestFixture::new();
    let id = f.create(&[1000, 1000, 1000], 7200);
    let (d, b, a) = (f.depositor, f.beneficiary, f.arbiter);

    f.start_work(b, id).unwrap();

    f.submit(b, id, 0).unwrap();
    f.approve(d, id, 0).unwrap();
    assert_eq!(f.balance(b), 1000);

    f.submit(b, id, 1).unwrap();
    f.dispute(d, id, 1).unwrap();
    f.resolve(a, id, 1, 500).unwrap();
    assert_eq!(f.balance(b), 1500);

    f.submit(b, id, 2).unwrap();
    f.approve(d, id, 2).unwrap();
    assert_eq!(f.balance(b), 2500);

    assert_eq!(f.balance(d), 100_000 - 3000 + 500);
}

#[test]
fn test_client_protection_scenario() {
    let mut f = TestFixture::new();
    let id = f.create(&[5000], 7200);
    let (d, b, a) = (f.depositor, f.beneficiary, f.arbiter);

    f.start_work(b, id).unwrap();
    f.submit(b, id, 0).unwrap();
    f.dispute(d, id, 0).unwrap();
    f.resolve(a, id, 0, 0).unwrap();

    assert_eq!(f.balance(d), 100_000);
    assert_eq!(f.balance(b), 0);
}

#[test]
fn test_freelancer_protection_scenario() {
    let mut f = TestFixture::new();
    let id = f.create(&[5000], 7200);
    let (d, b) = (f.depositor, f.beneficiary);

    f.start_work(b, id).unwrap();

    let result = f.refund(d, id);
    assert!(result.is_err());
    assert_eq!(result.unwrap_err(), EscrowError::WorkStarted);

    f.submit(b, id, 0).unwrap();
}

// Creation checks and lookups shared with the single-payment escrow

#[test]
fn test_zero_amount_error() {
    let mut f = TestFixture::new();
    let result = f.try_create(&[0], 7200);

    assert!(result.is_err());
    assert_eq!(result.unwrap_err(), EscrowError::ZeroAmount);
}

#[test]
fn test_invalid_beneficiary_error() {
    let mut f = TestFixture::new();
    let (d, a, t) = (f.depositor, f.arbiter, f.token);
    let result = f.try_create_with(d, d, a, &[1000], t, 7200);

    assert!(result.is_err());
    assert_eq!(result.unwrap_err(), EscrowError::InvalidBeneficiary);
}

#[test]
fn test_invalid_arbiter_error() {
    let mut f = TestFixture::new();
    let (d, b, t) = (f.depositor, f.beneficiary, f.token);
    let result = f.try_create_with(d, b, d, &[1000], t, 7200);

    assert!(result.is_err());
    assert_eq!(result.unwrap_err(), EscrowError::InvalidArbiter);
}

#[test]
fn test_invalid_duration_error() {
    let mut f = TestFixture::new();
    let result = f.try_create(&[1000], 1800);

    assert!(result.is_err());
    assert_eq!(result.unwrap_err(), EscrowError::InvalidDuration);
}

#[test]
fn test_refund_after_deadline_error() {
    let mut f = TestFixture::new();
    let duration = 7200u64;
    let id = f.create(&[1000], duration);
    let d = f.depositor;

    f.now += duration + 1;
    let result = f.refund(d, id);

    assert!(result.is_err());
    assert_eq!(result.unwrap_err(), EscrowError::NotAuthorized);
}

#[test]
fn test_nonexistent_escrow_error() {
    let f = TestFixture::new();
    let result = f.contract.get_escrow(999);

    assert!(result.is_err());
    assert_eq!(result.unwrap_err(), EscrowError::EscrowNotFound);
}

// Further cases

#[test]
fn scenario_full_lifecycle_with_dispute() {
    let mut f = TestFixture::new();
    let (d, b, a) = (f.depositor, f.beneficiary, f.arbiter);
    f.now = 50;
    let plan = f
        .contract
        .create(d, b, a, vec![500, 1000, 1500], f.token, 7200, f.now)
        .unwrap();
    assert_eq!(
        plan,
        vec![Transfer { token: f.token, from: Account::Holder(d), to: Account::Custody, amount: 3000 }]
    );
    let created = f.perform(Ok(plan)).unwrap();
    assert_eq!(
        created,
        Settled::Created(EscrowCreated { id: 1, depositor: d, beneficiary: b, amount: 3000 })
    );
    assert_eq!(f.custody(), 3000);
    assert_eq!(f.escrow(1).status, EscrowStatus::Pending);
    assert_eq!(f.escrow(1).deadline, 7250);

    assert_eq!(f.start_work(b, 1), Ok(WorkStarted { id: 1, started_at: 50 }));
    assert_eq!(f.escrow(1).status, EscrowStatus::InProgress);
    assert!(f.escrow(1).work_started);

    assert_eq!(f.submit(b, 1, 0), Ok(MilestoneSubmitted { id: 1, milestone_index: 0 }));
    assert_eq!(f.escrow(1).milestones[0].submitted_at, Some(50));
    f.now = 60;
    assert_eq!(
        f.approve(d, 1, 0),
        Ok(Settled::Approved(MilestoneApproved { id: 1, milestone_index: 0, amount: 500 }))
    );
    assert_eq!(f.balance(b), 500);
    assert_eq!(f.escrow(1).paid_amount, 500);
    assert_eq!(f.escrow(1).milestones[0].approved_at, Some(60));

    f.submit(b, 1, 1).unwrap();
    f.dispute(d, 1, 1).unwrap();
    assert_eq!(f.escrow(1).status, EscrowStatus::Disputed);

    assert_eq!(f.resolve(a, 1, 1, 500), Ok(Settled::Resolved { id: 1, milestone_index: 1 }));
    assert_eq!(f.balance(b), 1000);
    assert_eq!(f.balance(d), 100_000 - 3000 + 500);
    assert_eq!(f.custody(), 1500);
    let escrow = f.escrow(1);
    assert_eq!(escrow.status, EscrowStatus::InProgress);
    assert_eq!(escrow.milestones[1].status, MilestoneStatus::Approved);
    assert_eq!(escrow.paid_amount, 1000);
    assert_eq!(escrow.total_amount, 3000);
}

#[test]
fn refund_window_closes_at_deadline() {
    let mut f = TestFixture::new();
    let d = f.depositor;
    let id = f.create(&[1000], 7200);
    f.now = 7200;
    assert_eq!(f.refund(d, id), Err(EscrowError::NotAuthorized));
    f.now = 7199;
    assert_eq!(f.refund(d, id), Ok(Settled::Refunded { id }));
    assert_eq!(f.balance(d), 100_000);
    assert_eq!(f.custody(), 0);
}

#[test]
fn creation_rejections_in_order() {
    let mut f = TestFixture::new();
    let (d, b, a, t) = (f.depositor, f.beneficiary, f.arbiter, f.token);
    assert_eq!(f.try_create_with(d, d, d, &[], t, 10), Err(EscrowError::InvalidBeneficiary));
    assert_eq!(f.try_create_with(d, b, b, &[1000], t, 7200), Err(EscrowError::InvalidArbiter));
    assert_eq!(f.try_create_with(d, b, a, &[], t, 10), Err(EscrowError::InvalidDuration));
    assert_eq!(f.try_create_with(d, b, a, &[1000, -5], t, 7200), Err(EscrowError::ZeroAmount));
    assert_eq!(
        f.try_create_with(d, b, a, &[i128::MAX, 1], t, 7200),
        Err(EscrowError::InvalidMilestone)
    );
    assert_eq!(
        f.try_create_with(d, b, a, &[i128::MAX, 1, 0], t, 7200),
        Err(EscrowError::ZeroAmount)
    );
    f.now = u64::MAX - 100;
    assert_eq!(f.try_create_with(d, b, a, &[1000], t, 3600), Err(EscrowError::InvalidDeadline));
    assert_eq!(f.contract.next_id(), Ok(1));
    assert!(!f.contract.is_locked());
}

#[test]
fn duration_bounds_are_inclusive() {
    let mut f = TestFixture::new();
    assert_eq!(f.try_create(&[10], MIN_DURATION), Ok(1));
    assert_eq!(f.try_create(&[10], MAX_DURATION), Ok(2));
    assert_eq!(f.try_create(&[10], MIN_DURATION - 1), Err(EscrowError::InvalidDuration));
    assert_eq!(f.try_create(&[10], MAX_DURATION + 1), Err(EscrowError::InvalidDuration));
    assert_eq!(f.contract.next_id(), Ok(3));
}

#[test]
fn failed_funding_stores_nothing() {
    let mut f = TestFixture::new();
    assert_eq!(f.contract.next_id(), Ok(1));
    f.fail_transfers = true;
    assert_eq!(f.try_create(&[500, 1000], 7200), Err(EscrowError::TransferFailed));
    assert_eq!(f.contract.get_escrow(1).unwrap_err(), EscrowError::EscrowNotFound);
    assert_eq!(f.contract.next_id(), Ok(1));
    assert!(!f.contract.is_locked());
    assert_eq!(f.balance(f.depositor), 100_000);

    f.fail_transfers = false;
    assert_eq!(f.try_create(&[500, 1000], 7200), Ok(1));
    assert_eq!(f.contract.next_id(), Ok(2));
}

#[test]
fn failed_payment_keeps_bookkeeping() {
    let mut f = TestFixture::new();
    let (d, b) = (f.depositor, f.beneficiary);
    let id = f.create(&[400, 600], 7200);
    f.start_work(b, id).unwrap();
    f.submit(b, id, 0).unwrap();

    f.fail_transfers = true;
    assert_eq!(f.approve(d, id, 0), Err(EscrowError::TransferFailed));
    assert_eq!(f.escrow(id).paid_amount, 0);
    assert_eq!(f.escrow(id).milestones[0].status, MilestoneStatus::Submitted);
    assert_eq!(f.balance(b), 0);

    f.fail_transfers = false;
    f.approve(d, id, 0).unwrap();
    assert_eq!(f.escrow(id).paid_amount, 400);
    assert_eq!(f.balance(b), 400);
}

#[test]
fn failed_refund_keeps_status() {
    let mut f = TestFixture::new();
    let d = f.depositor;
    let id = f.create(&[1000], 7200);
    f.fail_transfers = true;
    assert_eq!(f.refund(d, id), Err(EscrowError::TransferFailed));
    assert_eq!(f.escrow(id).status, EscrowStatus::Pending);
    f.fail_transfers = false;
    f.refund(d, id).unwrap();
    assert_eq!(f.escrow(id).status, EscrowStatus::Refunded);
    assert_eq!(f.refund(d, id), Err(EscrowError::AlreadyCompleted));
    assert_eq!(f.start_work(f.beneficiary, id), Err(EscrowError::AlreadyCompleted));
}

#[test]
fn paid_amount_only_grows_and_stays_within_total() {
    let mut f = TestFixture::new();
    let (d, b, a) = (f.depositor, f.beneficiary, f.arbiter);
    let id = f.create(&[300, 300, 400], 7200);
    f.start_work(b, id).unwrap();
    let mut last = 0;
    for (index, pay) in [(0u32, None), (1, Some(100)), (2, None)] {
        f.submit(b, id, index).unwrap();
        match pay {
            None => {
                f.approve(d, id, index).unwrap();
            }
            Some(p) => {
                f.dispute(d, id, index).unwrap();
                f.resolve(a, id, index, p).unwrap();
            }
        }
        let paid = f.escrow(id).paid_amount;
        assert!(paid >= last);
        assert!(paid <= f.escrow(id).total_amount);
        last = paid;
    }
    assert_eq!(last, 800);
    assert_eq!(f.balance(b), 800);
    assert_eq!(f.balance(d), 100_000 - 1000 + 200);
}

#[test]
fn refund_blocked_once_work_started() {
    let mut f = TestFixture::new();
    let (d, b, a) = (f.depositor, f.beneficiary, f.arbiter);
    let id = f.create(&[1000], 7200);
    f.start_work(b, id).unwrap();
    for now in [0u64, 100, 7199, 7200, 1_000_000] {
        f.now = now;
        assert_eq!(f.refund(d, id), Err(EscrowError::WorkStarted));
    }
    assert_eq!(f.refund(a, id), Err(EscrowError::NotAuthorized));
    assert_eq!(f.start_work(b, id), Err(EscrowError::WorkStarted));
}

#[test]
fn approving_twice_fails() {
    let mut f = TestFixture::new();
    let (d, b) = (f.depositor, f.beneficiary);
    let id = f.create(&[1000, 2000], 7200);
    f.start_work(b, id).unwrap();
    f.submit(b, id, 1).unwrap();
    f.approve(d, id, 1).unwrap();
    assert_eq!(f.approve(d, id, 1), Err(EscrowError::MilestoneNotSubmitted));
    assert_eq!(f.approve(d, id, 0), Err(EscrowError::MilestoneNotSubmitted));
    assert_eq!(f.approve(d, id, 2), Err(EscrowError::InvalidMilestone));
    assert_eq!(f.balance(b), 2000);
}

#[test]
fn resolution_outside_range_changes_nothing() {
    let mut f = TestFixture::new();
    let (d, b, a) = (f.depositor, f.beneficiary, f.arbiter);
    let id = f.create(&[1000], 7200);
    f.start_work(b, id).unwrap();
    f.submit(b, id, 0).unwrap();
    f.dispute(d, id, 0).unwrap();
    let before = (f.balance(d), f.balance(b), f.custody());
    assert_eq!(f.resolve(a, id, 0, -1), Err(EscrowError::InvalidMilestone));
    assert_eq!(f.resolve(a, id, 0, 1001), Err(EscrowError::InvalidMilestone));
    assert_eq!((f.balance(d), f.balance(b), f.custody()), before);
    assert_eq!(f.escrow(id).milestones[0].status, MilestoneStatus::Disputed);
    assert_eq!(f.escrow(id).paid_amount, 0);
    assert!(!f.contract.is_locked());
}

#[test]
fn resolution_transfers_skip_empty_legs() {
    let mut f = TestFixture::new();
    let (d, b, a, t) = (f.depositor, f.beneficiary, f.arbiter, f.token);
    let id = f.create(&[1000, 1000], 7200);
    f.start_work(b, id).unwrap();
    f.submit(b, id, 0).unwrap();
    f.dispute(d, id, 0).unwrap();
    let plan = f.contract.resolve_milestone_dispute(a, id, 0, 1000).unwrap();
    assert_eq!(
        plan,
        vec![Transfer { token: t, from: Account::Custody, to: Account::Holder(b), amount: 1000 }]
    );
    f.perform(Ok(plan)).unwrap();
    f.submit(b, id, 1).unwrap();
    f.dispute(d, id, 1).unwrap();
    let plan = f.contract.resolve_milestone_dispute(a, id, 1, 250).unwrap();
    assert_eq!(
        plan,
        vec![
            Transfer { token: t, from: Account::Custody, to: Account::Holder(b), amount: 250 },
            Transfer { token: t, from: Account::Custody, to: Account::Holder(d), amount: 750 },
        ]
    );
    f.perform(Ok(plan)).unwrap();
    assert_eq!(f.escrow(id).paid_amount, 1250);
    assert_eq!(f.custody(), 0);
}

#[test]
fn guard_refuses_reentry() {
    let mut f = TestFixture::new();
    let (d, b, a, t) = (f.depositor, f.beneficiary, f.arbiter, f.token);
    let plan = f.contract.create(d, b, a, vec![1000], t, 7200, 0).unwrap();
    assert!(f.contract.is_locked());
    assert_eq!(f.contract.create(d, b, a, vec![5], t, 7200, 0), Err(EscrowError::Reentrancy));
    assert_eq!(
        f.contract.create(d, b, a, vec![5], t, 10, 0),
        Err(EscrowError::InvalidDuration)
    );
    f.perform(Ok(plan)).unwrap();

    f.start_work(b, 1).unwrap();
    f.submit(b, 1, 0).unwrap();
    let plan = f.contract.approve_milestone(d, 1, 0, 0).unwrap();
    assert_eq!(f.contract.approve_milestone(d, 1, 0, 0), Err(EscrowError::Reentrancy));
    assert_eq!(f.contract.dispute_milestone(d, 1, 0), Err(EscrowError::Reentrancy));
    assert_eq!(f.contract.refund(d, 1, 0), Err(EscrowError::Reentrancy));
    assert_eq!(f.contract.start_work(b, 2, 0), Err(EscrowError::Reentrancy));
    f.perform(Ok(plan)).unwrap();
    assert_eq!(f.approve(d, 1, 0), Err(EscrowError::MilestoneNotSubmitted));
}

#[test]
fn operations_on_unknown_escrow() {
    let mut f = TestFixture::new();
    let (d, b, a) = (f.depositor, f.beneficiary, f.arbiter);
    assert_eq!(f.start_work(b, 1), Err(EscrowError::EscrowNotFound));
    assert_eq!(f.submit(b, 0, 0), Err(EscrowError::EscrowNotFound));
    assert_eq!(f.approve(d, 3, 0), Err(EscrowError::EscrowNotFound));
    assert_eq!(f.dispute(d, 3, 0), Err(EscrowError::EscrowNotFound));
    assert_eq!(f.resolve(a, 3, 0, 1), Err(EscrowError::EscrowNotFound));
    assert_eq!(f.refund(d, 3), Err(EscrowError::EscrowNotFound));
}

#[test]
fn submission_rules() {
    let mut f = TestFixture::new();
    let (d, b) = (f.depositor, f.beneficiary);
    let id = f.create(&[1000], 7200);
    assert_eq!(f.submit(b, id, 0), Err(EscrowError::NotAuthorized));
    assert_eq!(f.start_work(d, id), Err(EscrowError::NotAuthorized));
    f.start_work(b, id).unwrap();
    assert_eq!(f.submit(b, id, 1), Err(EscrowError::InvalidMilestone));
    f.submit(b, id, 0).unwrap();
    f.dispute(d, id, 0).unwrap();
    assert_eq!(f.submit(b, id, 0), Err(EscrowError::NotAuthorized));
}

#[test]
fn lease_lengths() {
    assert_eq!(escrow_lease(7200, 0), (0, 7200 + 2_592_000));
    assert_eq!(escrow_lease(7200, 100), (100, 7100 + 2_592_000));
    assert_eq!(escrow_lease(7200, 9000), (9000, 2_592_000));
    assert_eq!(escrow_lease(u64::MAX, 5), (5, u32::MAX));
    assert_eq!(escrow_lease(u64::MAX, u64::MAX - 1), (u32::MAX, (1 + LEASE_BUFFER) as u32));
    assert_eq!(COUNTER_LEASE, 31_536_000);
}

#[test]
fn records_round_trip_through_restore() {
    let mut f = TestFixture::new();
    let (d, b) = (f.depositor, f.beneficiary);
    f.create(&[100, 200], 7200);
    f.create(&[300], 7200);
    f.start_work(b, 1).unwrap();
    f.submit(b, 1, 0).unwrap();
    f.approve(d, 1, 0).unwrap();

    let contract = std::mem::replace(&mut f.contract, EscrowContract::new());
    let records = contract.into_records();
    assert_eq!(records.len(), 2);
    assert!(records.iter().all(|r| r.is_valid()));
    let mut restored = EscrowContract::restore(records).unwrap();
    assert_eq!(restored.next_id(), Ok(3));
    assert!(!restored.is_locked());
    let first = restored.get_escrow(1).unwrap();
    assert_eq!(first.paid_amount, 100);
    assert_eq!(first.milestones[0].status, MilestoneStatus::Approved);
    assert_eq!(restored.start_work(b, 2, 0), Ok(WorkStarted { id: 2, started_at: 0 }));
}

#[test]
fn restore_rejects_broken_records() {
    let mut f = TestFixture::new();
    let b = f.beneficiary;
    f.create(&[100, 200], 7200);
    let contract = std::mem::replace(&mut f.contract, EscrowContract::new());
    let good = contract.into_records().remove(0);
    assert!(good.is_valid());

    let mut overpaid = good.clone();
    overpaid.paid_amount = 1;
    assert!(!overpaid.is_valid());

    let mut wrong_total = good.clone();
    wrong_total.total_amount = 299;
    assert!(!wrong_total.is_valid());

    let mut same_parties = good.clone();
    same_parties.arbiter = b;
    assert!(!same_parties.is_valid());

    let mut started_refund = good.clone();
    started_refund.status = EscrowStatus::Refunded;
    started_refund.work_started = true;
    assert!(!started_refund.is_valid());

    let mut early_submission = good.clone();
    early_submission.milestones[1].status = MilestoneStatus::Submitted;
    assert!(!early_submission.is_valid());

    let mut zero_milestone = good.clone();
    zero_milestone.milestones[0].amount = 0;
    zero_milestone.total_amount = 200;
    assert!(!zero_milestone.is_valid());

    assert!(EscrowContract::restore(vec![good.clone(), overpaid]).is_none());
    assert!(EscrowContract::restore(vec![good]).is_some());
}
