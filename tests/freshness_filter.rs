use video_streaming::{FreshnessFilter, RawFrame};

fn frame_at(captured_ms: u64) -> RawFrame {
    RawFrame::new(1, 1, vec![0, 0, 0], captured_ms)
}

#[test]
fn ages_around_the_threshold() {
    let threshold = 100;
    let filter = FreshnessFilter::new(threshold);
    let now = 10_000;
    // A frame exactly at the threshold is not older than it, so it is kept.
    assert!(filter.accepts(now, now));
    assert!(filter.accepts(now, now - (threshold - 1)));
    assert!(filter.accepts(now, now - threshold));
    assert!(!filter.accepts(now, now - (threshold + 1)));
}

#[test]
fn capture_stamp_ahead_of_clock_counts_as_new() {
    let filter = FreshnessFilter::new(0);
    assert_eq!(FreshnessFilter::age(5, 9), 0);
    assert!(filter.accepts(5, 9));
}

#[test]
fn retain_fresh_keeps_order_and_drops_stale() {
    let filter = FreshnessFilter::new(100);
    let now = 1_000;
    let frames = vec![frame_at(now - 50), frame_at(now - 150), frame_at(now - 30)];
    let kept = filter.retain_fresh(now, frames);
    let stamps: Vec<u64> = kept.iter().map(|f| f.captured_ms).collect();
    assert_eq!(stamps, vec![now - 50, now - 30]);
}

#[test]
fn stale_frames_lenient_threshold() {
    let filter = FreshnessFilter::new(1000);
    assert!(filter.accepts(5_000, 4_000));
    assert!(!filter.accepts(5_000, 3_999));
}
