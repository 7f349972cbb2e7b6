use vstd::prelude::*;
use crate::encoding::{EncodedPacket, EncoderFault, EncodingStage};
use crate::frame::RawFrame;
use crate::freshness::{FreshnessFilter, is_fresh};

verus! {

/// The freshness filter in front of the encoding stage.
pub struct FramePipeline {
    pub filter: FreshnessFilter,
    pub stage: EncodingStage,
}

impl FramePipeline {
    pub fn new(filter: FreshnessFilter, stage: EncodingStage) -> (r: FramePipeline)
        ensures
            r.filter == filter,
            r.stage == stage,
    {
        FramePipeline { filter, stage }
    }

    /// Runs one captured frame through the pipeline at `now_ms`. A frame
    /// older than the threshold never reaches the encoder: nothing is
    /// emitted, nothing changes, and no error is raised. A fresh frame is
    /// handed to the encoding stage, with all that `submit` promises.
    pub fn process(&mut self, now_ms: u64, frame: &RawFrame) -> (r: Result<
        Option<EncodedPacket>,
        EncoderFault,
    >)
        ensures
            final(self).filter == old(self).filter,
            final(self).stage.mode_of() == old(self).stage.mode_of(),
            !is_fresh(now_ms, frame.captured_ms, old(self).filter.threshold_ms) ==> {
                &&& r == Ok::<Option<EncodedPacket>, EncoderFault>(None)
                &&& *final(self) == *old(self)
            },
            is_fresh(now_ms, frame.captured_ms, old(self).filter.threshold_ms) ==> old(
                self,
            ).stage.submitted(final(self).stage, *frame, r),
            match r {
                Ok(Some(p)) => {
                    &&& is_fresh(now_ms, frame.captured_ms, old(self).filter.threshold_ms)
                    &&& p.captured_ms == frame.captured_ms
                    &&& p.mode == old(self).stage.mode_of()
                },
                _ => true,
            },
    {
        if !self.filter.accepts(now_ms, frame.captured_ms) {
            return Ok(None);
        }
        self.stage.submit(frame)
    }
}

} // verus!
