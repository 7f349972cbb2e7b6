use vstd::prelude::*;
use crate::frame::RawFrame;

verus! {

/// How old a frame captured at `captured_ms` is at `now_ms`. A capture stamp
/// that lies ahead of the clock counts as age zero.
pub open spec fn frame_age(now_ms: u64, captured_ms: u64) -> nat {
    if now_ms >= captured_ms {
        (now_ms - captured_ms) as nat
    } else {
        0
    }
}

/// A frame is admitted when its age does not exceed the threshold.
pub open spec fn is_fresh(now_ms: u64, captured_ms: u64, threshold_ms: u64) -> bool {
    frame_age(now_ms, captured_ms) <= threshold_ms
}

/// Drops frames that have grown older than a fixed threshold before they
/// reach the encoder.
pub struct FreshnessFilter {
    pub threshold_ms: u64,
}

impl FreshnessFilter {
    /// The admission test at `now_ms`, as a predicate on frames.
    pub open spec fn fresh_at(&self, now_ms: u64) -> spec_fn(RawFrame) -> bool {
        |f: RawFrame| is_fresh(now_ms, f.captured_ms, self.threshold_ms)
    }

    pub fn new(threshold_ms: u64) -> (r: FreshnessFilter)
        ensures
            r.threshold_ms == threshold_ms,
    {
        FreshnessFilter { threshold_ms }
    }

    /// The age of a frame captured at `captured_ms`, seen at `now_ms`.
    pub fn age(now_ms: u64, captured_ms: u64) -> (r: u64)
        ensures
            r == frame_age(now_ms, captured_ms),
    {
        if now_ms >= captured_ms {
            now_ms - captured_ms
        } else {
            0
        }
    }

    /// Whether a frame captured at `captured_ms` may still be encoded at `now_ms`.
    pub fn accepts(&self, now_ms: u64, captured_ms: u64) -> (r: bool)
        ensures
            r == is_fresh(now_ms, captured_ms, self.threshold_ms),
    {
        Self::age(now_ms, captured_ms) <= self.threshold_ms
    }

    /// Keeps, in their order, exactly the frames that are fresh at `now_ms`.
    pub fn retain_fresh(&self, now_ms: u64, frames: Vec<RawFrame>) -> (r: Vec<RawFrame>)
        ensures
            r@ == frames@.filter(self.fresh_at(now_ms)),
    {
        let ghost pred = self.fresh_at(now_ms);
        let mut kept: Vec<RawFrame> = Vec::new();
        let mut rest = frames;
        let ghost all = rest@;
        let mut i: usize = 0;
        let n: usize = rest.len();
        while rest.len() > 0
            invariant
                i + rest@.len() == all.len(),
                all.len() <= usize::MAX,
                pred == self.fresh_at(now_ms),
                rest@ == all.subrange(i as int, all.len() as int),
                kept@ == all.subrange(0, i as int).filter(pred),
            decreases rest@.len(),
        {
            let f = rest.remove(0);
            proof {
                assert(f == all[i as int]);
                assert(all.subrange(0, i as int + 1) =~= all.subrange(0, i as int).push(f));
                all.subrange(0, i as int).lemma_filter_push(f, pred);
            }
            let ghost before = kept@;
            if self.accepts(now_ms, f.captured_ms) {
                kept.push(f);
                assert(kept@ == before.push(f));
            }

            i = i + 1;
            proof {
                assert(rest@ =~= all.subrange(i as int, all.len() as int));
            }
        }
        proof {
            assert(all.subrange(0, all.len() as int) =~= all);
        }
        kept
    }
}

} // verus!
