use vstd::prelude::*;

use crate::ledger::{contribute_outcome, total_after_contribution};

verus! {

/// The sum of a sequence of amounts.
pub open spec fn sum(amounts: Seq<int>) -> int
    decreases amounts.len(),
{
    if amounts.len() == 0 {
        0
    } else {
        sum(amounts.drop_last()) + amounts.last()
    }
}

/// Every amount in the sequence is strictly positive.
pub open spec fn all_positive(amounts: Seq<int>) -> bool {
    forall|i: int| 0 <= i < amounts.len() ==> amounts[i] > 0
}

/// The stored total after attempting the contributions in order, starting
/// from an empty store.
pub open spec fn total_after_contributions(amounts: Seq<int>) -> int
    decreases amounts.len(),
{
    if amounts.len() == 0 {
        0
    } else {
        total_after_contribution(total_after_contributions(amounts.drop_last()), amounts.last())
    }
}

/// Every contribution in the sequence is accepted when they are attempted in
/// order, starting from an empty store.
pub open spec fn all_accepted(amounts: Seq<int>) -> bool
    decreases amounts.len(),
{
    if amounts.len() == 0 {
        true
    } else {
        all_accepted(amounts.drop_last()) && contribute_outcome(
            total_after_contributions(amounts.drop_last()),
            amounts.last(),
        ) is Ok
    }
}

/// Law: a sequence of valid (strictly positive) contributions whose sum fits
/// in `i128`, applied in order to an empty store, is accepted in full, and
/// the total read afterwards is exactly the sum of the amounts.
pub proof fn lemma_valid_contributions_sum_up(amounts: Seq<int>)
    requires
        all_positive(amounts),
        sum(amounts) <= i128::MAX,
    ensures
        all_accepted(amounts),
        total_after_contributions(amounts) == sum(amounts),
        sum(amounts) >= 0,
    decreases amounts.len(),
{
    if amounts.len() > 0 {
        let prefix = amounts.drop_last();
        assert forall|i: int| 0 <= i < prefix.len() implies prefix[i] > 0 by {
            assert(amounts[i] > 0);
        }
        lemma_valid_contributions_sum_up(prefix);
    }
}

/// Law: contributions accumulate instead of overwriting — making the same
/// positive contribution twice raises the total by twice the amount, so the
/// second, identical contribution never leaves the total where the first
/// left it.
pub proof fn lemma_repeated_contribution_accumulates(total: int, amount: int)
    requires
        total >= 0,
        amount > 0,
        total + amount + amount <= i128::MAX,
    ensures
        total_after_contribution(total_after_contribution(total, amount), amount) == total + amount
            + amount,
        total_after_contribution(total_after_contribution(total, amount), amount)
            != total_after_contribution(total, amount),
{
}

/// Law: two positive contributions reach the same total in either order.
pub proof fn lemma_contribution_order_independent(total: int, a: int, b: int)
    requires
        total >= 0,
        a > 0,
        b > 0,
        total + a + b <= i128::MAX,
    ensures
        total_after_contribution(total_after_contribution(total, a), b)
            == total_after_contribution(total_after_contribution(total, b), a),
{
}

/// Law: a refused contribution — a non-positive amount, or one that would
/// overflow the total — leaves the stored total unchanged.
pub proof fn lemma_refused_contribution_changes_nothing(total: int, amount: int)
    requires
        contribute_outcome(total, amount) is Err,
    ensures
        total_after_contribution(total, amount) == total,
{
}

} // verus!
