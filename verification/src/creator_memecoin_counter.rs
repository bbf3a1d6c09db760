//! Per-creator launch counter: the sequence index that makes each launch's
//! derived identity unique.

use vstd::prelude::*;

verus! {

/// Monotonically increasing count of launches a creator has opened.
#[derive(Clone, Copy, PartialEq, Eq, Structural, Debug)]
pub struct CreatorMemecoinCounter {
    pub count: u32,
}

impl Default for CreatorMemecoinCounter {
    /// A fresh counter starts at zero.
    fn default() -> (counter: Self)
        ensures
            counter.count == 0,
    {
        CreatorMemecoinCounter { count: 0 }
    }
}

impl CreatorMemecoinCounter {
    /// Advances the sequence index by one.
    pub fn increment(&mut self)
        requires
            old(self).count < u32::MAX,
        ensures
            final(self).count == old(self).count + 1,
    {
        self.count += 1;
    }
}

} // verus!
