use vstd::prelude::*;

use crate::types::{all_released, amount_sum, none_released, released_sum, Balance, EscrowError, Milestone};

verus! {

/// The error that creation reports for the milestones from position `i` on:
/// the first milestone whose id is not its position, or that is already released.
pub open spec fn milestone_error(ms: Seq<Milestone>, i: int) -> Option<EscrowError>
    decreases ms.len() - i,
{
    if i < 0 || i >= ms.len() {
        None
    } else if ms[i].id != i {
        Some(EscrowError::InvalidAmount)
    } else if ms[i].released {
        Some(EscrowError::InvalidStatus)
    } else {
        milestone_error(ms, i + 1)
    }
}

/// Milestones with no creation error from position `i` on carry their position as id
/// and are unreleased.
pub proof fn lemma_no_milestone_error(ms: Seq<Milestone>, i: int)
    requires
        0 <= i,
        milestone_error(ms, i) is None,
    ensures
        forall|j: int| i <= j < ms.len() ==> #[trigger] ms[j].id == j,
        forall|j: int| i <= j < ms.len() ==> !(#[trigger] ms[j].released),
    decreases ms.len() - i,
{
    if i < ms.len() {
        lemma_no_milestone_error(ms, i + 1);
    }
}

/// With no milestone released, nothing counts as released.
pub proof fn lemma_none_released(ms: Seq<Milestone>)
    requires
        none_released(ms),
    ensures
        released_sum(ms) == 0,
    decreases ms.len(),
{
    if ms.len() > 0 {
        assert(none_released(ms.drop_last()));
        lemma_none_released(ms.drop_last());
    }
}

/// Sums over a prefix never exceed the sums over the whole sequence.
pub proof fn lemma_prefix_sums(ms: Seq<Milestone>, i: int)
    requires
        0 <= i <= ms.len(),
    ensures
        0 <= released_sum(ms.take(i)) <= amount_sum(ms.take(i)) <= amount_sum(ms),
        released_sum(ms.take(i)) <= released_sum(ms),
        released_sum(ms) <= amount_sum(ms),
    decreases ms.len(),
{
    if ms.len() == 0 {
        assert(ms.take(i) =~= ms);
    } else if i == ms.len() {
        assert(ms.take(i) =~= ms);
        lemma_prefix_sums(ms.drop_last(), i - 1);
        assert(ms.drop_last().take(i - 1) =~= ms.drop_last());
    } else {
        lemma_prefix_sums(ms.drop_last(), i);
        assert(ms.take(i) =~= ms.drop_last().take(i));
        lemma_prefix_sums(ms.drop_last(), ms.len() - 1);
        assert(ms.drop_last().take(ms.len() - 1) =~= ms.drop_last());
    }
}

/// Marking an unreleased milestone as released adds its amount to the released sum
/// and leaves the total unchanged.
pub proof fn lemma_release_one(ms: Seq<Milestone>, k: int, m: Milestone)
    requires
        0 <= k < ms.len(),
        !ms[k].released,
        m.released,
        m.amount == ms[k].amount,
    ensures
        released_sum(ms.update(k, m)) == released_sum(ms) + ms[k].amount,
        amount_sum(ms.update(k, m)) == amount_sum(ms),
    decreases ms.len(),
{
    let ms2 = ms.update(k, m);
    if k == ms.len() - 1 {
        assert(ms2.drop_last() =~= ms.drop_last());
    } else {
        lemma_release_one(ms.drop_last(), k, m);
        assert(ms2.drop_last() =~= ms.drop_last().update(k, m));
    }
}

/// Total of the milestone amounts.
pub fn sum_amounts(ms: &Vec<Milestone>) -> (r: Balance)
    requires
        amount_sum(ms@) <= Balance::MAX,
    ensures
        r == amount_sum(ms@),
{
    let mut acc: Balance = 0;
    let mut i: usize = 0;
    while i < ms.len()
        invariant
            0 <= i <= ms.len(),
            amount_sum(ms@) <= Balance::MAX,
            acc == amount_sum(ms@.take(i as int)),
        decreases ms.len() - i,
    {
        proof {
            lemma_prefix_sums(ms@, i + 1);
            assert(ms@.take(i + 1).drop_last() =~= ms@.take(i as int));
        }
        acc = acc + ms[i].amount;
        i = i + 1;
    }
    assert(ms@.take(i as int) =~= ms@);
    acc
}

/// Total of the milestone amounts, or `None` where it does not fit in a `Balance`.
pub fn checked_total(ms: &Vec<Milestone>) -> (r: Option<Balance>)
    ensures
        amount_sum(ms@) <= Balance::MAX ==> r == Some(amount_sum(ms@) as Balance),
        amount_sum(ms@) > Balance::MAX ==> r is None,
{
    let mut acc: Balance = 0;
    let mut i: usize = 0;
    while i < ms.len()
        invariant
            0 <= i <= ms.len(),
            acc == amount_sum(ms@.take(i as int)),
        decreases ms.len() - i,
    {
        assert(ms@.take(i + 1).drop_last() =~= ms@.take(i as int));
        if ms[i].amount > Balance::MAX - acc {
            proof {
                lemma_prefix_sums(ms@, i + 1);
            }
            return None;
        }
        acc = acc + ms[i].amount;
        i = i + 1;
    }
    assert(ms@.take(i as int) =~= ms@);
    Some(acc)
}

/// Total of the amounts of the released milestones.
pub fn sum_released(ms: &Vec<Milestone>) -> (r: Balance)
    requires
        amount_sum(ms@) <= Balance::MAX,
    ensures
        r == released_sum(ms@),
        r <= amount_sum(ms@),
{
    let mut acc: Balance = 0;
    let mut i: usize = 0;
    while i < ms.len()
        invariant
            0 <= i <= ms.len(),
            amount_sum(ms@) <= Balance::MAX,
            acc == released_sum(ms@.take(i as int)),
        decreases ms.len() - i,
    {
        proof {
            lemma_prefix_sums(ms@, i + 1);
            assert(ms@.take(i + 1).drop_last() =~= ms@.take(i as int));
        }
        if ms[i].released {
            acc = acc + ms[i].amount;
        }
        i = i + 1;
    }
    assert(ms@.take(i as int) =~= ms@);
    proof {
        lemma_prefix_sums(ms@, 0);
    }
    acc
}

/// Whether every milestone has been released.
pub fn every_released(ms: &Vec<Milestone>) -> (r: bool)
    ensures
        r == all_released(ms@),
{
    let mut i: usize = 0;
    while i < ms.len()
        invariant
            0 <= i <= ms.len(),
            forall|j: int| 0 <= j < i ==> (#[trigger] ms@[j]).released,
        decreases ms.len() - i,
    {
        if !ms[i].released {
            return false;
        }
        i = i + 1;
    }
    true
}

/// The error creation reports for these milestones' ids and flags, if any.
pub fn check_milestones(ms: &Vec<Milestone>) -> (r: Option<EscrowError>)
    ensures
        r == milestone_error(ms@, 0),
{
    let mut i: usize = 0;
    while i < ms.len()
        invariant
            0 <= i <= ms.len(),
            milestone_error(ms@, 0) == milestone_error(ms@, i as int),
        decreases ms.len() - i,
    {
        if ms[i].id as usize != i {
            return Some(EscrowError::InvalidAmount);
        }
        if ms[i].released {
            return Some(EscrowError::InvalidStatus);
        }
        i = i + 1;
    }
    None
}

} // verus!
