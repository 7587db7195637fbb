use vstd::prelude::*;

use crate::model::{
    amounts_total, approved_part, approved_total, fresh_milestone, milestones_total,
};
use crate::types::{Milestone, MilestoneStatus};

verus! {

/// Replacing one milestone by one of the same amount keeps the total and moves
/// the approved total by the change in that milestone's approved part.
pub proof fn lemma_totals_update(ms: Seq<Milestone>, i: int, m: Milestone)
    requires
        0 <= i < ms.len(),
        m.amount == ms[i].amount,
    ensures
        milestones_total(ms.update(i, m)) == milestones_total(ms),
        approved_total(ms.update(i, m)) == approved_total(ms) - approved_part(ms[i])
            + approved_part(m),
    decreases ms.len(),
{
    let u = ms.update(i, m);
    if i == ms.len() - 1 {
        assert(u.drop_last() =~= ms.drop_last());
    } else {
        assert(u.drop_last() =~= ms.drop_last().update(i, m));
        lemma_totals_update(ms.drop_last(), i, m);
    }
}

/// With positive amounts the approved total lies between zero and the total.
pub proof fn lemma_approved_within_total(ms: Seq<Milestone>)
    requires
        forall|i: int| 0 <= i < ms.len() ==> #[trigger] ms[i].amount > 0,
    ensures
        0 <= approved_total(ms) <= milestones_total(ms),
    decreases ms.len(),
{
    if ms.len() > 0 {
        let d = ms.drop_last();
        assert forall|i: int| 0 <= i < d.len() implies #[trigger] d[i].amount > 0 by {
            assert(d[i] == ms[i]);
        }
        assert(ms.last() == ms[ms.len() - 1]);
        lemma_approved_within_total(d);
    }
}

/// Fresh milestones add up to the amounts they were made from, none approved.
pub proof fn lemma_fresh_totals(amounts: Seq<i128>)
    ensures
        milestones_total(Seq::new(amounts.len(), |i: int| fresh_milestone(amounts[i])))
            == amounts_total(amounts),
        approved_total(Seq::new(amounts.len(), |i: int| fresh_milestone(amounts[i]))) == 0,
    decreases amounts.len(),
{
    let ms = Seq::new(amounts.len(), |i: int| fresh_milestone(amounts[i]));
    if amounts.len() > 0 {
        let d = amounts.drop_last();
        assert(ms.drop_last() =~= Seq::new(d.len(), |i: int| fresh_milestone(d[i])));
        lemma_fresh_totals(d);
        assert(ms.last().status == MilestoneStatus::NotStarted);
    }
}

/// The total of the first `i + 1` amounts is that of the first `i` plus the
/// next one.
pub proof fn lemma_amounts_prefix(amounts: Seq<i128>, i: int)
    requires
        0 <= i < amounts.len(),
    ensures
        amounts_total(amounts.take(i + 1)) == amounts_total(amounts.take(i)) + amounts[i],
{
    assert(amounts.take(i + 1).drop_last() =~= amounts.take(i));
}

/// With positive amounts every prefix total is at most the whole total.
pub proof fn lemma_prefix_within_total(amounts: Seq<i128>, i: int)
    requires
        0 <= i <= amounts.len(),
        forall|j: int| 0 <= j < amounts.len() ==> #[trigger] amounts[j] > 0,
    ensures
        amounts_total(amounts.take(i)) <= amounts_total(amounts),
    decreases amounts.len() - i,
{
    if i < amounts.len() {
        lemma_amounts_prefix(amounts, i);
        lemma_prefix_within_total(amounts, i + 1);
    } else {
        assert(amounts.take(i) =~= amounts);
    }
}

/// The totals of the first `i + 1` milestones are those of the first `i`
/// plus the next one's part.
pub proof fn lemma_milestones_prefix(ms: Seq<Milestone>, i: int)
    requires
        0 <= i < ms.len(),
    ensures
        milestones_total(ms.take(i + 1)) == milestones_total(ms.take(i)) + ms[i].amount,
        approved_total(ms.take(i + 1)) == approved_total(ms.take(i)) + approved_part(ms[i]),
{
    assert(ms.take(i + 1).drop_last() =~= ms.take(i));
}

/// With positive amounts the total of every prefix of the milestones is at
/// most the total of all of them.
pub proof fn lemma_milestones_prefix_within(ms: Seq<Milestone>, i: int)
    requires
        0 <= i <= ms.len(),
        forall|j: int| 0 <= j < ms.len() ==> #[trigger] ms[j].amount > 0,
    ensures
        milestones_total(ms.take(i)) <= milestones_total(ms),
    decreases ms.len() - i,
{
    if i < ms.len() {
        lemma_milestones_prefix(ms, i);
        lemma_milestones_prefix_within(ms, i + 1);
    } else {
        assert(ms.take(i) =~= ms);
    }
}

} // verus!
