use vstd::prelude::*;

verus! {

/// The number of viewers currently registered. It is the one signal that
/// decides whether the capture device should be open.
pub struct DemandCounter {
    count: u64,
}

impl DemandCounter {
    pub closed spec fn value(&self) -> nat {
        self.count as nat
    }

    pub fn new() -> (r: DemandCounter)
        ensures
            r.value() == 0,
    {
        DemandCounter { count: 0 }
    }

    pub fn get(&self) -> (r: u64)
        ensures
            r == self.value(),
    {
        self.count
    }

    /// Whether any viewer is waiting for frames.
    pub fn poll_demand(&self) -> (r: bool)
        ensures
            r == (self.value() > 0),
    {
        self.count > 0
    }

    /// Counts one more viewer; refused, with nothing changed, only when the
    /// count cannot grow any further.
    pub fn increment(&mut self) -> (r: bool)
        ensures
            r == (old(self).value() < u64::MAX),
            r ==> final(self).value() == old(self).value() + 1,
            !r ==> final(self).value() == old(self).value(),
    {
        if self.count < u64::MAX {
            self.count = self.count + 1;
            true
        } else {
            false
        }
    }

    /// Counts one viewer less; at zero nothing changes, so the count never
    /// goes negative.
    pub fn decrement(&mut self) -> (r: bool)
        ensures
            r == (old(self).value() > 0),
            r ==> final(self).value() + 1 == old(self).value(),
            !r ==> final(self).value() == old(self).value(),
    {
        if self.count > 0 {
            self.count = self.count - 1;
            true
        } else {
            false
        }
    }
}

} // verus!
