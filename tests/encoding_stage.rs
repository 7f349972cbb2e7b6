use video_streaming::color::{clamp, rgb_to_planes, to_ycbcr};
use video_streaming::framer::{envelope, epoch_parts, raw_frame};
use video_streaming::{
    Av1Settings, BroadcastBus, ChromaLayout, EncodedPacket, EncoderFault, EncodingMode, EncodingStage,
    FrameKind, FramePipeline, FreshnessFilter, RawFrame,
};

fn gradient(width: u32, height: u32, shift: u32, captured_ms: u64) -> RawFrame {
    let mut pixels = Vec::with_capacity((width * height * 3) as usize);
    for y in 0..height {
        for x in 0..width {
            pixels.push(((x + shift) * 4 % 256) as u8);
            pixels.push(((y * 4 + shift) % 256) as u8);
            pixels.push(((x + y + shift) % 256) as u8);
        }
    }
    RawFrame::new(width, height, pixels, captured_ms)
}

#[test]
fn ycbcr_reference_colors() {
    assert_eq!(to_ycbcr(0, 0, 0), (16, 128, 128));
    assert_eq!(to_ycbcr(255, 255, 255), (235, 128, 128));
    assert_eq!(to_ycbcr(255, 0, 0), (81, 90, 240));
    assert_eq!(to_ycbcr(0, 255, 0), (145, 54, 34));
    assert_eq!(to_ycbcr(0, 0, 255), (41, 240, 110));
}

#[test]
fn clamp_rounds_and_saturates() {
    assert_eq!(clamp(-1), 0);
    assert_eq!(clamp(127_499), 0);
    assert_eq!(clamp(127_500), 1);
    assert_eq!(clamp(255 * 255_000), 255);
    assert_eq!(clamp(300 * 255_000), 255);
}

#[test]
fn planes_split_pixels() {
    let (ys, cbs, crs) = rgb_to_planes(&vec![0, 0, 0, 255, 0, 0, 9]);
    assert_eq!(ys, vec![16, 81]);
    assert_eq!(cbs, vec![128, 90]);
    assert_eq!(crs, vec![128, 240]);
}

#[test]
fn mode_from_tag() {
    assert_eq!(EncodingMode::parse("MJPEG"), Some(EncodingMode::FullFrame));
    assert_eq!(EncodingMode::parse("AV1"), Some(EncodingMode::Incremental));
    assert_eq!(EncodingMode::parse("av1"), None);
    assert_eq!("AV1".parse::<EncodingMode>(), Ok(EncodingMode::Incremental));
    assert_eq!("H264".parse::<EncodingMode>(), Err(()));
    assert_eq!(EncodingMode::FullFrame.tag(), "MJPEG");
    assert_eq!(FrameKind::Delta.wire_name(), "delta");
}

#[test]
fn full_frame_is_a_jpeg_file() {
    let mut stage = EncodingStage::full_frame(80);
    let frame = gradient(16, 16, 0, 42);
    let packet = stage.submit(&frame).unwrap().unwrap();
    assert_eq!(&packet.payload[..2], &[0xFF, 0xD8]);
    assert_eq!(&packet.payload[packet.payload.len() - 2..], &[0xFF, 0xD9]);
    assert_eq!(packet.kind, None);
    assert_eq!(packet.captured_ms, 42);
    assert_eq!(packet.mode, EncodingMode::FullFrame);
}

#[test]
fn malformed_frame_is_refused() {
    let mut stage = EncodingStage::full_frame(80);
    let frame = RawFrame::new(2, 2, vec![0; 5], 0);
    assert!(matches!(stage.submit(&frame), Err(EncoderFault::MalformedFrame)));
    let mut av1 = EncodingStage::incremental(Av1Settings::new(16, 16));
    assert!(matches!(av1.submit(&gradient(32, 16, 0, 0)), Err(EncoderFault::MalformedFrame)));
}

#[test]
fn oversized_image_is_rejected_by_jpeg() {
    let mut stage = EncodingStage::full_frame(80);
    let frame = RawFrame::new(70_000, 1, vec![0; 210_000], 0);
    assert!(matches!(stage.submit(&frame), Err(EncoderFault::ImageRejected)));
}

#[test]
fn settings_refused_by_codec() {
    let mut stage = EncodingStage::incremental(Av1Settings::new(8, 8));
    assert!(matches!(stage.submit(&gradient(8, 8, 0, 0)), Err(EncoderFault::InvalidSettings)));
}

#[test]
fn envelope_fields() {
    let packet = EncodedPacket {
        payload: vec![1, 2, 3],
        kind: Some(FrameKind::Key),
        captured_ms: 1_234_567,
        mode: EncodingMode::Incremental,
    };
    let e = envelope(&packet);
    assert_eq!(e.data.as_deref(), Some("AQID"));
    assert_eq!(e.frame_type.as_deref(), Some("key"));
    assert_eq!((e.epoch_secs, e.epoch_nanos), (1234, 567_000_000));
    assert_eq!(e.encoding, "AV1");
    assert_eq!(raw_frame(&packet), vec![1, 2, 3]);
}

#[test]
fn envelope_of_empty_full_frame() {
    let packet = EncodedPacket {
        payload: vec![],
        kind: None,
        captured_ms: 999,
        mode: EncodingMode::FullFrame,
    };
    let e = envelope(&packet);
    assert_eq!(e.data, None);
    assert_eq!(e.frame_type, None);
    assert_eq!(e.encoding, "MJPEG");
    assert_eq!(epoch_parts(999), (0, 999_000_000));
}

#[test]
fn end_to_end_stale_frame_dropped() {
    let now = 100_000;
    let mut bus = BroadcastBus::new(10);
    let viewer = bus.register().unwrap();
    let mut pipeline =
        FramePipeline::new(FreshnessFilter::new(100), EncodingStage::full_frame(80));
    let ages = [50u64, 150, 30];
    let mut admitted = Vec::new();
    let mut packets = 0;
    for (i, age) in ages.iter().enumerate() {
        let frame = gradient(16, 16, i as u32, now - age);
        if pipeline.filter.accepts(now, frame.captured_ms) {
            admitted.push(i + 1);
        }
        if let Some(p) = pipeline.process(now, &frame).unwrap() {
            packets += 1;
            bus.publish(&raw_frame(&p));
        }
    }
    assert_eq!(admitted, vec![1, 3]);
    assert!(packets >= 2);
    assert_eq!(bus.pending(&viewer), Some(packets));
}

#[test]
fn incremental_key_frame_spacing() {
    let settings = Av1Settings::new(64, 64);
    let mut stage = EncodingStage::incremental(settings);
    let mut kinds = Vec::new();
    for i in 0..60u32 {
        let frame = gradient(64, 64, i, i as u64);
        if let Some(p) = stage.submit(&frame).unwrap() {
            assert_eq!(p.mode, EncodingMode::Incremental);
            kinds.push(p.kind.unwrap());
        }
    }
    let keys: Vec<usize> =
        kinds.iter().enumerate().filter(|(_, k)| **k == FrameKind::Key).map(|(i, _)| i).collect();
    assert!(!keys.is_empty());
    assert!(keys[0] < 20);
    let mut last = keys[0];
    for &k in keys.iter().skip(1) {
        assert!(k - last <= 50);
        last = k;
    }
    assert!(kinds.len() - 1 - last <= 50);
}

#[test]
fn fresh_frame_after_stale_one_is_encoded() {
    let now = 50_000;
    let mut pipeline =
        FramePipeline::new(FreshnessFilter::new(100), EncodingStage::full_frame(80));
    let stale = gradient(16, 16, 0, now - 500);
    assert!(matches!(pipeline.process(now, &stale), Ok(None)));
    let fresh = gradient(16, 16, 1, now - 10);
    let packet = pipeline.process(now, &fresh).unwrap().unwrap();
    assert_eq!(packet.captured_ms, now - 10);
    assert_eq!(&packet.payload[..2], &[0xFF, 0xD8]);
}

#[test]
fn subsampled_chroma_is_refused() {
    let mut settings = Av1Settings::new(16, 16);
    settings.chroma = ChromaLayout::Cs420;
    let mut stage = EncodingStage::incremental(settings);
    assert!(matches!(stage.submit(&gradient(16, 16, 0, 0)), Err(EncoderFault::InvalidSettings)));
}

#[test]
fn base64_padding() {
    let one = EncodedPacket {
        payload: vec![0xFF],
        kind: None,
        captured_ms: 0,
        mode: EncodingMode::FullFrame,
    };
    assert_eq!(envelope(&one).data.as_deref(), Some("/w=="));
    let two = EncodedPacket {
        payload: vec![1, 2],
        kind: Some(FrameKind::Delta),
        captured_ms: 0,
        mode: EncodingMode::Incremental,
    };
    let e = envelope(&two);
    assert_eq!(e.data.as_deref(), Some("AQI="));
    assert_eq!(e.frame_type.as_deref(), Some("delta"));
}

#[test]
fn first_incremental_frame_reaches_the_codec() {
    let mut stage = EncodingStage::incremental(Av1Settings::new(16, 16));
    let r = stage.submit(&gradient(16, 16, 0, 7));
    assert!(matches!(r, Ok(_)), "{:?}", r.err());
}

#[test]
fn from_str_is_case_sensitive_and_round_trips() {
    assert_eq!("MJPEG".parse::<EncodingMode>(), Ok(EncodingMode::FullFrame));
    assert_eq!("mjpeg".parse::<EncodingMode>(), Err(()));
    for m in [EncodingMode::FullFrame, EncodingMode::Incremental] {
        assert_eq!(m.tag().parse::<EncodingMode>(), Ok(m));
    }
}
