//! The per-mission limit on crafted repellent bottles.

use vstd::prelude::*;

verus! {

/// Counts the repellent bottles crafted (and not returned) in the current
/// mission, against the mission's limit.
pub struct RepellentCraftTracker {
    pub crafted_count: u32,
    pub max_crafts: u32,
}

impl Default for RepellentCraftTracker {
    fn default() -> (r: Self)
        ensures
            r.crafted_count == 0,
            r.max_crafts == 0,
    {
        RepellentCraftTracker { crafted_count: 0, max_crafts: 0 }
    }
}

impl RepellentCraftTracker {
    /// Bottles that may still be crafted; never below zero.
    pub fn remaining_crafts(&self) -> (r: u32)
        ensures
            r == if self.crafted_count < self.max_crafts {
                self.max_crafts - self.crafted_count
            } else {
                0
            },
    {
        self.max_crafts.saturating_sub(self.crafted_count)
    }

    pub fn can_craft(&self) -> (r: bool)
        ensures
            r == (self.crafted_count < self.max_crafts),
    {
        self.crafted_count < self.max_crafts
    }

    /// Records one crafted bottle, when the limit allows it.
    pub fn craft(&mut self)
        ensures
            final(self).max_crafts == old(self).max_crafts,
            final(self).crafted_count == if old(self).crafted_count < old(self).max_crafts {
                old(self).crafted_count + 1
            } else {
                old(self).crafted_count as int
            },
    {
        if self.can_craft() {
            self.crafted_count = self.crafted_count + 1;
        }
    }

    /// Records one returned bottle, when any was crafted.
    pub fn refund(&mut self)
        ensures
            final(self).max_crafts == old(self).max_crafts,
            final(self).crafted_count == if old(self).crafted_count > 0 {
                old(self).crafted_count - 1
            } else {
                0
            },
    {
        if self.crafted_count > 0 {
            self.crafted_count = self.crafted_count - 1;
        }
    }

    /// Starts a new mission with the given limit.
    pub fn reset(&mut self, max_crafts: u32)
        ensures
            final(self).crafted_count == 0,
            final(self).max_crafts == max_crafts,
    {
        self.crafted_count = 0;
        self.max_crafts = max_crafts;
    }
}

} // verus!
