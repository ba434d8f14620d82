use vstd::prelude::*;

verus! {

/// The one persisted slot of the hosting key-value store, handed to every
/// operation as an explicit handle. The host keeps a single named slot for
/// the running total; the slot starts out absent, and an absent slot reads
/// as zero.
pub struct Store {
    total: Option<i128>,
}

impl View for Store {
    type V = int;

    /// The total the store currently answers: the slot's content, or zero
    /// while the slot has never been written.
    closed spec fn view(&self) -> int {
        match self.total {
            Some(v) => v as int,
            None => 0,
        }
    }
}

impl Store {
    /// The slot starts at zero and only accepted, strictly positive
    /// contributions are ever added, so the stored total never goes below
    /// zero.
    pub open spec fn wf(&self) -> bool {
        self@ >= 0
    }

    /// A fresh store whose slot has never been written.
    pub fn new() -> (s: Store)
        ensures
            s@ == 0,
            s.wf(),
    {
        Store { total: None }
    }

    /// A store whose slot already holds `total`, as after earlier accepted
    /// contributions were persisted by the host.
    pub fn with_total(total: i128) -> (s: Store)
        requires
            total >= 0,
        ensures
            s@ == total,
            s.wf(),
    {
        Store { total: Some(total) }
    }

    /// Reads the slot, defaulting to zero while it is unset.
    pub(crate) fn get_or_zero(&self) -> (v: i128)
        ensures
            v as int == self@,
    {
        match self.total {
            Some(v) => v,
            None => 0,
        }
    }

    /// Overwrites the slot.
    pub(crate) fn set(&mut self, v: i128)
        ensures
            final(self)@ == v as int,
    {
        self.total = Some(v);
    }
}

} // verus!
