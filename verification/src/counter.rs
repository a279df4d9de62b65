//! A minimal counter contract: the state and operations of the counter
//! template.

use vstd::prelude::*;

verus! {

/// Contract state.
#[derive(Debug)]
pub struct Counter {
    /// Current count value.
    value: u64,
}

/// Event emitted when the counter changes.
#[derive(Clone, Copy, Debug, PartialEq, Eq, Structural)]
pub struct CountChanged {
    /// Previous value.
    pub old_value: u64,
    /// New value.
    pub new_value: u64,
}

/// The topic under which a change of the count is emitted.
pub const COUNT_CHANGED: &'static str = "count_changed";

impl Counter {
    /// The current count.
    pub closed spec fn count(self) -> u64 {
        self.value
    }

    /// Initialize a new counter with zero.
    pub fn new() -> (r: Counter)
        ensures
            r.count() == 0,
    {
        Counter { value: 0 }
    }

    /// Get the current count.
    pub fn get_count(&self) -> (r: u64)
        ensures
            r == self.count(),
    {
        self.value
    }

    /// Increment the counter by one, stopping at the largest value. The
    /// change is returned for emission.
    pub fn increment(&mut self) -> (event: CountChanged)
        ensures
            final(self).count() == (if old(self).count() == u64::MAX {
                u64::MAX
            } else {
                (old(self).count() + 1) as u64
            }),
            event == (CountChanged {
                old_value: old(self).count(),
                new_value: final(self).count(),
            }),
    {
        let old_value = self.value;
        self.value = if self.value == u64::MAX {
            u64::MAX
        } else {
            self.value + 1
        };
        CountChanged { old_value, new_value: self.value }
    }

    /// Decrement the counter by one, stopping at zero. The change is
    /// returned for emission.
    pub fn decrement(&mut self) -> (event: CountChanged)
        ensures
            final(self).count() == (if old(self).count() == 0 {
                0
            } else {
                (old(self).count() - 1) as u64
            }),
            event == (CountChanged {
                old_value: old(self).count(),
                new_value: final(self).count(),
            }),
    {
        let old_value = self.value;
        self.value = if self.value == 0 {
            0
        } else {
            self.value - 1
        };
        CountChanged { old_value, new_value: self.value }
    }

    /// Set the counter to a specific value. The change is returned for
    /// emission.
    pub fn set_count(&mut self, value: u64) -> (event: CountChanged)
        ensures
            final(self).count() == value,
            event == (CountChanged { old_value: old(self).count(), new_value: value }),
    {
        let old_value = self.value;
        self.value = value;
        CountChanged { old_value, new_value: self.value }
    }
}

} // verus!
