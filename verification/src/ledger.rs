use vstd::prelude::*;

use crate::store::Store;

verus! {

/// Why a contribution attempt was refused. Either way the store is left
/// untouched.
#[derive(Clone, Copy, Debug, PartialEq, Eq)]
pub enum ContributionError {
    /// The offered amount was zero or negative.
    InvalidAmount,
    /// Adding the amount would push the running total past `i128::MAX`.
    ArithmeticOverflow,
}

/// What one contribution attempt decides, given the stored total: a
/// non-positive amount is refused outright, a sum that would leave the range
/// of `i128` is refused, and any other amount is added to the total.
pub open spec fn contribute_outcome(total: int, amount: int) -> Result<int, ContributionError> {
    if amount <= 0 {
        Err(ContributionError::InvalidAmount)
    } else if total + amount > i128::MAX {
        Err(ContributionError::ArithmeticOverflow)
    } else {
        Ok(total + amount)
    }
}

/// The stored total after one contribution attempt: the new sum when the
/// attempt is accepted, the old total when it is refused.
pub open spec fn total_after_contribution(total: int, amount: int) -> int {
    match contribute_outcome(total, amount) {
        Ok(new_total) => new_total,
        Err(_) => total,
    }
}

/// The ledger counter. It owns no state of its own: each operation reads and
/// writes the one persisted slot through the store handle the host passes in.
pub struct Crowdfunding;

impl Crowdfunding {
    /// Adds a strictly positive `amount` to the stored total. A non-positive
    /// amount and a sum that would not fit in `i128` are refused, and a
    /// refused attempt leaves the store exactly as it was.
    pub fn donate(store: &mut Store, amount: i128) -> (r: Result<(), ContributionError>)
        requires
            old(store).wf(),
        ensures
            final(store).wf(),
            final(store)@ == total_after_contribution(old(store)@, amount as int),
            amount <= 0 ==> r == Err::<(), ContributionError>(ContributionError::InvalidAmount)
                && *final(store) == *old(store),
            amount > 0 && old(store)@ + amount > i128::MAX ==> r == Err::<(), ContributionError>(
                ContributionError::ArithmeticOverflow,
            ) && *final(store) == *old(store),
            amount > 0 && old(store)@ + amount <= i128::MAX ==> r == Ok::<(), ContributionError>(())
                && final(store)@ == old(store)@ + amount,
    {
        if amount <= 0 {
            return Err(ContributionError::InvalidAmount);
        }
        let current: i128 = store.get_or_zero();
        match current.checked_add(amount) {
            Some(new_total) => {
                store.set(new_total);
                Ok(())
            },
            None => Err(ContributionError::ArithmeticOverflow),
        }
    }

    /// Reads the running total: the sum of all contributions accepted so
    /// far, or zero while nothing has ever been contributed. Never fails.
    pub fn get_total(store: &Store) -> (total: i128)
        ensures
            total as int == store@,
    {
        store.get_or_zero()
    }
}

} // verus!
