//! Facts about milestone lists and the loops that compute over them.

use vstd::prelude::*;
use crate::model::with_released;
use crate::record::{
    all_completed, list_view, milestones_remaining, milestones_total, Milestone, MilestoneView,
};
use crate::types::MAX_AMOUNT;

verus! {

/// What is outstanding is never negative and never more than the total.
pub proof fn lemma_remaining_bounds(list: Seq<MilestoneView>)
    ensures
        0 <= milestones_remaining(list) <= milestones_total(list),
    decreases list.len(),
{
    if list.len() > 0 {
        lemma_remaining_bounds(list.drop_last());
    }
}

/// The total of a prefix is at most the total of the whole list, and so is
/// what is outstanding in it.
pub proof fn lemma_prefix_bounds(list: Seq<MilestoneView>, k: int)
    requires
        0 <= k <= list.len(),
    ensures
        0 <= milestones_total(list.take(k)) <= milestones_total(list),
        0 <= milestones_remaining(list.take(k)) <= milestones_remaining(list),
    decreases list.len(),
{
    if k == list.len() {
        assert(list.take(k) =~= list);
        lemma_remaining_bounds(list);
    } else {
        assert(list.drop_last().take(k) =~= list.take(k));
        lemma_prefix_bounds(list.drop_last(), k);
    }
}

/// Extending a prefix by one milestone adds that milestone's amount to the
/// total, and to what is outstanding if it has not been released.
pub proof fn lemma_prefix_step(list: Seq<MilestoneView>, k: int)
    requires
        0 <= k < list.len(),
    ensures
        milestones_total(list.take(k + 1)) == milestones_total(list.take(k)) + list[k].amount,
        milestones_remaining(list.take(k + 1)) == milestones_remaining(list.take(k)) + if list[k].completed {
            0
        } else {
            list[k].amount as int
        },
{
    assert(list.take(k + 1).drop_last() =~= list.take(k));
}

/// When every milestone has been released, nothing is outstanding.
pub proof fn lemma_all_completed_nothing_remains(list: Seq<MilestoneView>)
    requires
        all_completed(list),
    ensures
        milestones_remaining(list) == 0,
    decreases list.len(),
{
    if list.len() > 0 {
        assert(list.last().completed);
        assert forall|i: int| 0 <= i < list.drop_last().len() implies (#[trigger] list.drop_last()[i]).completed by {
            assert(list[i].completed);
        }
        lemma_all_completed_nothing_remains(list.drop_last());
    }
}

/// Releasing a milestone leaves the total as it was and takes exactly the
/// milestone's amount from what is outstanding.
pub proof fn lemma_release_accounting(list: Seq<MilestoneView>, index: int)
    requires
        0 <= index < list.len(),
        !list[index].completed,
    ensures
        milestones_total(with_released(list, index)) == milestones_total(list),
        milestones_remaining(with_released(list, index)) == milestones_remaining(list)
            - list[index].amount,
    decreases list.len(),
{
    let after = with_released(list, index);
    if index == list.len() - 1 {
        assert(after.drop_last() =~= list.drop_last());
    } else {
        assert(after.drop_last() =~= with_released(list.drop_last(), index));
        lemma_release_accounting(list.drop_last(), index);
    }
}

/// Adds up what is outstanding in a milestone list whose total is within
/// the accepted band.
pub fn outstanding_of(list: &Vec<Milestone>) -> (sum: u64)
    requires
        milestones_total(list_view(list@)) <= MAX_AMOUNT,
    ensures
        sum == milestones_remaining(list_view(list@)),
{
    let ghost model = list_view(list@);
    let mut sum: u64 = 0;
    let mut k: usize = 0;
    proof {
        assert(model.take(0) =~= Seq::<MilestoneView>::empty());
    }
    while k < list.len()
        invariant
            0 <= k <= list.len(),
            model == list_view(list@),
            model.len() == list.len(),
            milestones_total(model) <= MAX_AMOUNT,
            sum == milestones_remaining(model.take(k as int)),
        decreases list.len() - k,
    {
        proof {
            lemma_prefix_step(model, k as int);
            lemma_prefix_bounds(model, k as int + 1);
            lemma_remaining_bounds(model);
        }
        if !list[k].completed {
            sum = sum + list[k].amount;
        }
        k = k + 1;
    }
    proof {
        assert(model.take(k as int) =~= model);
    }
    sum
}

/// Tests whether every milestone of a list has been released.
pub fn all_released(list: &Vec<Milestone>) -> (done: bool)
    ensures
        done == all_completed(list_view(list@)),
{
    let ghost model = list_view(list@);
    let mut k: usize = 0;
    while k < list.len()
        invariant
            0 <= k <= list.len(),
            model == list_view(list@),
            model.len() == list.len(),
            forall|i: int| 0 <= i < k ==> (#[trigger] model[i]).completed,
        decreases list.len() - k,
    {
        if !list[k].completed {
            assert(!model[k as int].completed);
            return false;
        }
        k = k + 1;
    }
    true
}

/// Adds up all amounts of a milestone list. Answers `None` exactly when the
/// total exceeds the largest amount that may be escrowed.
pub fn total_of(list: &Vec<Milestone>) -> (sum: Option<u64>)
    ensures
        match sum {
            Some(t) => t == milestones_total(list_view(list@)) && t <= MAX_AMOUNT,
            None => milestones_total(list_view(list@)) > MAX_AMOUNT,
        },
{
    let ghost model = list_view(list@);
    let mut sum: u64 = 0;
    let mut k: usize = 0;
    proof {
        assert(model.take(0) =~= Seq::<MilestoneView>::empty());
    }
    while k < list.len()
        invariant
            0 <= k <= list.len(),
            model == list_view(list@),
            model.len() == list.len(),
            sum <= MAX_AMOUNT,
            sum == milestones_total(model.take(k as int)),
        decreases list.len() - k,
    {
        proof {
            lemma_prefix_step(model, k as int);
            lemma_prefix_bounds(model, k as int + 1);
        }
        let amount: u64 = list[k].amount;
        if amount > MAX_AMOUNT - sum {
            return None;
        }
        sum = sum + amount;
        k = k + 1;
    }
    proof {
        assert(model.take(k as int) =~= model);
    }
    Some(sum)
}

} // verus!
