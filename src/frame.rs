use vstd::prelude::*;

verus! {

/// One captured image: interleaved 8-bit RGB, row by row, stamped with the
/// wall-clock time of its capture in milliseconds since the epoch.
pub struct RawFrame {
    pub width: u32,
    pub height: u32,
    pub pixels: Vec<u8>,
    pub captured_ms: u64,
}

impl RawFrame {
    /// The pixel buffer holds exactly three bytes per pixel.
    pub open spec fn wf(&self) -> bool {
        self.pixels@.len() == 3 * (self.width as int) * (self.height as int)
    }

    /// Builds a frame; the buffer is taken as it is.
    pub fn new(width: u32, height: u32, pixels: Vec<u8>, captured_ms: u64) -> (r: RawFrame)
        ensures
            r.width == width,
            r.height == height,
            r.pixels@ == pixels@,
            r.captured_ms == captured_ms,
    {
        RawFrame { width, height, pixels, captured_ms }
    }

    /// Whether the buffer length matches the dimensions.
    pub fn is_well_formed(&self) -> (r: bool)
        ensures
            r == self.wf(),
    {
        let w: u64 = self.width as u64;
        let h: u64 = self.height as u64;
        assert(w * h <= 0xffff_fffe_0000_0001u64) by (nonlinear_arith)
            requires
                w <= 0xffff_ffffu64,
                h <= 0xffff_ffffu64,
        ;
        let area: u64 = w * h;
        let n: usize = self.pixels.len();
        assert(3 * (area as int) == 3 * (self.width as int) * (self.height as int)) by (nonlinear_arith)
            requires
                area == w * h,
                w == self.width,
                h == self.height,
        ;
        if area > (usize::MAX / 3) as u64 {
            false
        } else {
            n == 3 * area as usize
        }
    }
}

} // verus!
