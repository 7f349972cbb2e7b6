use vstd::prelude::*;
use rav1e::prelude::{ChromaSampling, FrameType, SpeedSettings};
use rav1e::{Config, Context, EncoderConfig, EncoderStatus, InvalidConfig};
use image::codecs::jpeg::JpegEncoder;
use image::{ColorType, ImageError};
use crate::color::rgb_to_planes;
use crate::frame::RawFrame;

verus! {

/// An AV1 encoder context over 8-bit samples, held opaque and reached only
/// through the functions below.
#[verifier::external_body]
struct Av1Context {
    ctx: Context<u8>,
}

/// Declares rav1e's `InvalidConfig`, the reason `Config::new_context` refuses
/// a configuration; it is only carried, never looked into.
#[verifier::external_type_specification]
#[verifier::external_body]
pub struct ExInvalidConfig(InvalidConfig);

/// Declares image's `ImageError`, the error of the JPEG encoder; it is only
/// carried, never looked into.
#[verifier::external_type_specification]
#[verifier::external_body]
pub struct ExImageError(ImageError);

/// How frames are compressed; chosen once for the life of the pipeline.
#[derive(PartialEq, Eq, Structural, Clone, Copy, Debug)]
pub enum EncodingMode {
    /// Each frame compressed on its own, as a JPEG image.
    FullFrame,
    /// Frames fed to one AV1 encoder context, which emits key and delta packets.
    Incremental,
}

/// The mode a configuration string names.
pub open spec fn mode_named(s: Seq<char>) -> Option<EncodingMode> {
    if s == "MJPEG"@ {
        Some(EncodingMode::FullFrame)
    } else if s == "AV1"@ {
        Some(EncodingMode::Incremental)
    } else {
        None
    }
}

/// The tag a mode carries on the wire.
pub open spec fn mode_tag(m: EncodingMode) -> Seq<char> {
    match m {
        EncodingMode::FullFrame => "MJPEG"@,
        EncodingMode::Incremental => "AV1"@,
    }
}

/// A mode's wire tag reads back as the same mode.
pub proof fn lemma_tag_round_trip(m: EncodingMode)
    ensures
        mode_named(mode_tag(m)) == Some(m),
{
    reveal_strlit("MJPEG");
    reveal_strlit("AV1");
    assert("MJPEG"@.len() != "AV1"@.len());
}

impl EncodingMode {
    /// Reads a mode from its wire tag: `MJPEG` or `AV1`.
    pub fn parse(s: &str) -> (r: Option<EncodingMode>)
        ensures
            r == mode_named(s@),
    {
        let owned = s.to_owned();
        if owned == "MJPEG".to_owned() {
            Some(EncodingMode::FullFrame)
        } else if owned == "AV1".to_owned() {
            Some(EncodingMode::Incremental)
        } else {
            None
        }
    }

    pub fn tag(&self) -> (r: &'static str)
        ensures
            r@ == mode_tag(*self),
    {
        match self {
            EncodingMode::FullFrame => "MJPEG",
            EncodingMode::Incremental => "AV1",
        }
    }
}

impl std::str::FromStr for EncodingMode {
    type Err = ();

    fn from_str(s: &str) -> (r: Result<EncodingMode, ()>)
        ensures
            r == (match mode_named(s@) {
                Some(m) => Ok::<EncodingMode, ()>(m),
                None => Err::<EncodingMode, ()>(()),
            }),
    {
        match EncodingMode::parse(s) {
            Some(m) => Ok(m),
            None => Err(()),
        }
    }
}

/// Whether a packet can be decoded on its own.
#[derive(PartialEq, Eq, Structural, Clone, Copy, Debug)]
pub enum FrameKind {
    Key,
    Delta,
}

pub open spec fn kind_name(k: FrameKind) -> Seq<char> {
    match k {
        FrameKind::Key => "key"@,
        FrameKind::Delta => "delta"@,
    }
}

impl FrameKind {
    pub fn wire_name(&self) -> (r: &'static str)
        ensures
            r@ == kind_name(*self),
    {
        match self {
            FrameKind::Key => "key",
            FrameKind::Delta => "delta",
        }
    }
}

/// One encoded frame, ready to be framed for the viewers.
pub struct EncodedPacket {
    pub payload: Vec<u8>,
    /// Key or delta for incremental packets; absent for full frames.
    pub kind: Option<FrameKind>,
    pub captured_ms: u64,
    pub mode: EncodingMode,
}

/// What the AV1 encoder reports instead of a packet or an accepted frame.
#[derive(PartialEq, Eq, Structural, Clone, Copy, Debug)]
pub enum CodecStatus {
    NeedMoreData,
    EnoughData,
    LimitReached,
    Encoded,
    Failure,
    NotReady,
}

/// The type of the frame an AV1 packet shows.
#[derive(PartialEq, Eq, Structural, Clone, Copy, Debug)]
pub enum PacketType {
    Key,
    Inter,
    IntraOnly,
    Switch,
}

/// A completed AV1 packet.
pub struct Av1Packet {
    pub data: Vec<u8>,
    pub frame_type: PacketType,
}

/// A packet is a key packet when its frame is a key frame; every other frame
/// type depends on what came before.
pub open spec fn kind_of(t: PacketType) -> FrameKind {
    if t == PacketType::Key {
        FrameKind::Key
    } else {
        FrameKind::Delta
    }
}

/// Why a frame produced no packet and the stage has to react.
#[derive(PartialEq, Eq, Structural, Clone, Copy, Debug)]
pub enum EncoderFault {
    /// The pixel buffer does not match the frame's dimensions.
    MalformedFrame,
    /// The AV1 settings were refused; no context could be built.
    InvalidSettings,
    /// The JPEG encoder refused the image.
    ImageRejected,
    /// The AV1 encoder failed; its context must be rebuilt.
    Codec(CodecStatus),
}

/// What sending a frame to the AV1 encoder amounts to.
#[derive(PartialEq, Eq, Structural, Clone, Copy, Debug)]
pub enum SendVerdict {
    Queued,
    /// The encoder's queue is full: the frame is skipped without error.
    QueueFull,
    Fault(CodecStatus),
}

pub open spec fn send_verdict(r: Result<(), CodecStatus>) -> SendVerdict {
    match r {
        Ok(()) => SendVerdict::Queued,
        Err(CodecStatus::EnoughData) => SendVerdict::QueueFull,
        Err(s) => SendVerdict::Fault(s),
    }
}

/// Whether a status from packet retrieval only means "not yet": more input
/// is needed, a frame is still in flight, or the queue is full.
pub open spec fn is_pending(s: CodecStatus) -> bool {
    s == CodecStatus::NeedMoreData || s == CodecStatus::Encoded || s == CodecStatus::EnoughData
}

/// The payload and kind, if any, that a retrieval result yields; a status
/// that is not a mere "not yet" is a fault.
pub open spec fn received_packet(r: Result<Av1Packet, CodecStatus>) -> Result<
    Option<(Seq<u8>, FrameKind)>,
    CodecStatus,
> {
    match r {
        Ok(p) => Ok(Some((p.data@, kind_of(p.frame_type)))),
        Err(s) => if is_pending(s) {
            Ok(None)
        } else {
            Err(s)
        },
    }
}

/// Classifies the result of handing a frame to the AV1 encoder.
pub fn classify_send(r: &Result<(), CodecStatus>) -> (v: SendVerdict)
    ensures
        v == send_verdict(*r),
{
    match r {
        Ok(()) => SendVerdict::Queued,
        Err(CodecStatus::EnoughData) => SendVerdict::QueueFull,
        Err(s) => SendVerdict::Fault(*s),
    }
}

/// Turns the result of a packet retrieval into the packet to emit, nothing
/// yet, or the fault that ends the context.
pub fn interpret_receive(r: Result<Av1Packet, CodecStatus>, captured_ms: u64) -> (out: Result<
    Option<EncodedPacket>,
    CodecStatus,
>)
    ensures
        match (out, received_packet(r)) {
            (Ok(Some(p)), Ok(Some((data, kind)))) => {
                &&& p.payload@ == data
                &&& p.kind == Some(kind)
                &&& p.captured_ms == captured_ms
                &&& p.mode == EncodingMode::Incremental
            },
            (Ok(None), Ok(None)) => true,
            (Err(s), Err(t)) => s == t,
            _ => false,
        },
{
    match r {
        Ok(p) => {
            let kind = if p.frame_type == PacketType::Key {
                FrameKind::Key
            } else {
                FrameKind::Delta
            };
            Ok(
                Some(
                    EncodedPacket {
                        payload: p.data,
                        kind: Some(kind),
                        captured_ms,
                        mode: EncodingMode::Incremental,
                    },
                ),
            )
        },
        Err(s) => {
            if s == CodecStatus::NeedMoreData || s == CodecStatus::Encoded || s
                == CodecStatus::EnoughData {
                Ok(None)
            } else {
                Err(s)
            }
        },
    }
}

/// The JPEG file that the image encoder writes for an RGB image.
pub uninterp spec fn jpeg_of(rgb: Seq<u8>, width: u32, height: u32, quality: u8) -> Seq<u8>;

/// Relies on image's `JpegEncoder::new_with_quality` and `JpegEncoder::encode`:
/// the bytes are the JPEG file for the RGB image, which depends on the pixels,
/// the dimensions and the quality alone. The one error is a dimension that
/// does not fit the 16-bit JPEG header (writing into a `Vec` cannot fail);
/// `encode` panics unless the buffer holds three bytes per pixel.
#[verifier::external_body]
fn jpeg_encode(rgb: &Vec<u8>, width: u32, height: u32, quality: u8) -> (r: Result<
    Vec<u8>,
    ImageError,
>)
    requires
        rgb@.len() == 3 * (width as int) * (height as int),
    ensures
        r is Ok <==> (width <= 65535 && height <= 65535),
        r is Ok ==> r->Ok_0@ == jpeg_of(rgb@, width, height, quality),
{
    let mut buf: Vec<u8> = Vec::new();
    JpegEncoder::new_with_quality(&mut buf, quality).encode(rgb, width, height, ColorType::Rgb8)?;
    Ok(buf)
}

/// Whether the JPEG header can hold the frame's dimensions.
pub open spec fn jpeg_size_ok(frame: RawFrame) -> bool {
    frame.width <= 65535 && frame.height <= 65535
}

/// Compresses one frame on its own. A frame whose buffer does not match its
/// dimensions is refused before the image encoder sees it; a well-formed
/// frame within the JPEG size limit is always encoded.
pub fn encode_full_frame(frame: &RawFrame, quality: u8) -> (r: Result<EncodedPacket, EncoderFault>)
    ensures
        !frame.wf() <==> r == Err::<EncodedPacket, EncoderFault>(EncoderFault::MalformedFrame),
        r == Err::<EncodedPacket, EncoderFault>(EncoderFault::ImageRejected) <==> frame.wf()
            && !jpeg_size_ok(*frame),
        frame.wf() && jpeg_size_ok(*frame) ==> r is Ok,
        match r {
            Ok(p) => {
                &&& p.payload@ == jpeg_of(frame.pixels@, frame.width, frame.height, quality)
                &&& p.kind is None
                &&& p.captured_ms == frame.captured_ms
                &&& p.mode == EncodingMode::FullFrame
            },
            Err(e) => e == EncoderFault::MalformedFrame || e == EncoderFault::ImageRejected,
        },
{
    if !frame.is_well_formed() {
        return Err(EncoderFault::MalformedFrame);
    }
    match jpeg_encode(&frame.pixels, frame.width, frame.height, quality) {
        Ok(payload) => Ok(
            EncodedPacket {
                payload,
                kind: None,
                captured_ms: frame.captured_ms,
                mode: EncodingMode::FullFrame,
            },
        ),
        Err(_) => Err(EncoderFault::ImageRejected),
    }
}

/// How the chroma planes are sampled relative to luma.
#[derive(PartialEq, Eq, Structural, Clone, Copy, Debug)]
pub enum ChromaLayout {
    Cs420,
    Cs422,
    Cs444,
    /// Luma only.
    Cs400,
}

/// The configuration handed to the AV1 encoder.
#[derive(PartialEq, Eq, Structural, Clone, Copy, Debug)]
pub struct Av1Settings {
    pub width: usize,
    pub height: usize,
    /// The planes this library produces are full resolution, so only
    /// `Cs444` can be encoded.
    pub chroma: ChromaLayout,
    /// rav1e's speed preset, 0 (slowest) to 10 (fastest).
    pub speed: u8,
    pub rdo_lookahead_frames: usize,
    pub min_key_frame_interval: u64,
    pub max_key_frame_interval: u64,
    pub low_latency: bool,
    pub error_resilient: bool,
    pub min_quantizer: u8,
    pub quantizer: usize,
    /// Target bitrate in kbit/s; 0 keeps the quantizer constant.
    pub bitrate: i32,
    pub tiles: usize,
    pub threads: usize,
}

impl Av1Settings {
    /// Low-latency settings for live streaming at the given resolution: the
    /// fastest preset, one frame of lookahead, a key frame every 20 to 50
    /// frames.
    pub fn new(width: usize, height: usize) -> (r: Av1Settings)
        ensures
            r.width == width,
            r.height == height,
            r.chroma == ChromaLayout::Cs444,
            r.speed == 10,
            r.rdo_lookahead_frames == 1,
            r.min_key_frame_interval == 20,
            r.max_key_frame_interval == 50,
            r.low_latency,
            r.error_resilient,
            r.min_quantizer == 50,
            r.quantizer == 100,
            r.bitrate == 0,
            r.tiles == 4,
            r.threads == 4,
    {
        Av1Settings {
            width,
            height,
            chroma: ChromaLayout::Cs444,
            speed: 10,
            rdo_lookahead_frames: 1,
            min_key_frame_interval: 20,
            max_key_frame_interval: 50,
            low_latency: true,
            error_resilient: true,
            min_quantizer: 50,
            quantizer: 100,
            bitrate: 0,
            tiles: 4,
            threads: 4,
        }
    }
}

/// The largest key-frame interval rav1e accepts.
pub const MAX_KEY_FRAME_INTERVAL: u64 = 715827882;

/// Whether rav1e accepts the settings: frame sides of 16 to 65535 samples, at
/// least one frame of lookahead and at most `usize::MAX - 1`, and a key-frame
/// interval of at most `MAX_KEY_FRAME_INTERVAL`. The other checks of its
/// validation concern options these settings leave at their defaults.
pub open spec fn av1_accepts(s: Av1Settings) -> bool {
    &&& 16 <= s.width <= 65535
    &&& 16 <= s.height <= 65535
    &&& 1 <= s.rdo_lookahead_frames <= usize::MAX - 1
    &&& s.max_key_frame_interval <= MAX_KEY_FRAME_INTERVAL
}

/// Whether this library can encode with the settings: rav1e accepts them and
/// the chroma planes are full resolution.
pub open spec fn av1_usable(s: Av1Settings) -> bool {
    av1_accepts(s) && s.chroma == ChromaLayout::Cs444
}

/// Relies on rav1e's `SpeedSettings::from_preset`, `Config::with_encoder_config`,
/// `Config::with_threads` and `Config::new_context`: an encoder context for the
/// settings, built exactly when `Config::validate` accepts them, or the reason
/// rav1e refuses them.
#[verifier::external_body]
fn av1_context(s: &Av1Settings) -> (r: Result<Av1Context, InvalidConfig>)
    ensures
        r is Ok <==> av1_accepts(*s),
{
    let mut speed_settings = SpeedSettings::from_preset(s.speed);
    speed_settings.rdo_lookahead_frames = s.rdo_lookahead_frames;
    let chroma_sampling = match s.chroma {
        ChromaLayout::Cs420 => ChromaSampling::Cs420, ChromaLayout::Cs422 => ChromaSampling::Cs422,
        ChromaLayout::Cs444 => ChromaSampling::Cs444, ChromaLayout::Cs400 => ChromaSampling::Cs400,
    };
    let enc = EncoderConfig {
        width: s.width, height: s.height, chroma_sampling, error_resilient: s.error_resilient,
        speed_settings, low_latency: s.low_latency, min_key_frame_interval: s.min_key_frame_interval,
        max_key_frame_interval: s.max_key_frame_interval, min_quantizer: s.min_quantizer,
        quantizer: s.quantizer, bitrate: s.bitrate, tiles: s.tiles, ..Default::default()
    };
    let cfg = Config::new().with_encoder_config(enc).with_threads(s.threads);
    cfg.new_context().map(|ctx| Av1Context { ctx })
}

/// Relies on rav1e's `Context::new_frame`, `Plane::copy_from_raw_u8` and
/// `Context::send_frame`: copies the planes, rows of `stride` samples, into a
/// new frame and queues it. Sending a frame is refused only with `EnoughData`
/// (after a flush or at the frame limit). `copy_from_raw_u8` panics on a zero
/// stride.
#[verifier::external_body]
fn av1_send(c: &mut Av1Context, planes: &[Vec<u8>; 3], stride: usize) -> (r: Result<(), CodecStatus>)
    requires
        stride > 0,
    ensures
        r is Err ==> r->Err_0 == CodecStatus::EnoughData,
{
    let mut frame = c.ctx.new_frame();
    for (dst, src) in frame.planes.iter_mut().zip(planes.iter()) {
        dst.copy_from_raw_u8(src, stride, 1);
    }
    match c.ctx.send_frame(frame) {
        Ok(()) => Ok(()),
        Err(EncoderStatus::NeedMoreData) => Err(CodecStatus::NeedMoreData),
        Err(EncoderStatus::EnoughData) => Err(CodecStatus::EnoughData),
        Err(EncoderStatus::LimitReached) => Err(CodecStatus::LimitReached),
        Err(EncoderStatus::Encoded) => Err(CodecStatus::Encoded),
        Err(EncoderStatus::Failure) => Err(CodecStatus::Failure),
        Err(EncoderStatus::NotReady) => Err(CodecStatus::NotReady),
    }
}

/// Relies on rav1e's `Context::receive_packet`: the next finished packet, its
/// data and the type of its frame, or the status that says why there is none.
#[verifier::external_body]
fn av1_receive(c: &mut Av1Context) -> (r: Result<Av1Packet, CodecStatus>) {
    match c.ctx.receive_packet() {
        Ok(p) => Ok(Av1Packet { data: p.data, frame_type: match p.frame_type {
            FrameType::KEY => PacketType::Key,
            FrameType::INTER => PacketType::Inter,
            FrameType::INTRA_ONLY => PacketType::IntraOnly,
            FrameType::SWITCH => PacketType::Switch,
        } }),
        Err(EncoderStatus::NeedMoreData) => Err(CodecStatus::NeedMoreData),
        Err(EncoderStatus::EnoughData) => Err(CodecStatus::EnoughData),
        Err(EncoderStatus::LimitReached) => Err(CodecStatus::LimitReached),
        Err(EncoderStatus::Encoded) => Err(CodecStatus::Encoded),
        Err(EncoderStatus::Failure) => Err(CodecStatus::Failure),
        Err(EncoderStatus::NotReady) => Err(CodecStatus::NotReady),
    }
}

/// Feeds frames to one AV1 encoder context. The context is built on the
/// first frame, and dropped on a fault so that the next frame starts afresh.
pub struct IncrementalEncoder {
    settings: Av1Settings,
    context: Option<Av1Context>,
    sent: Ghost<nat>,
}

impl IncrementalEncoder {
    pub closed spec fn config(&self) -> Av1Settings {
        self.settings
    }

    /// How many frames have been handed to an encoder context so far.
    pub closed spec fn frames_sent(&self) -> nat {
        self.sent@
    }

    /// Whether an encoder context is live.
    pub closed spec fn ready(&self) -> bool {
        self.context is Some
    }

    /// Whether a frame fits the settings: three bytes per pixel, at the
    /// configured resolution, and not empty.
    pub open spec fn fits(&self, frame: RawFrame) -> bool {
        &&& frame.wf()
        &&& frame.width > 0
        &&& frame.width == self.config().width
        &&& frame.height == self.config().height
    }

    pub fn new(settings: Av1Settings) -> (r: IncrementalEncoder)
        ensures
            r.config() == settings,
            !r.ready(),
    {
        IncrementalEncoder { settings, context: None, sent: Ghost(0) }
    }

    pub fn settings(&self) -> (r: Av1Settings)
        ensures
            r == self.config(),
    {
        self.settings
    }

    pub fn is_ready(&self) -> (r: bool)
        ensures
            r == self.ready(),
    {
        self.context.is_some()
    }

    /// What a call of `submit` on `self` with `frame` may have done, leaving
    /// `after` and returning `r`. A fitting frame always reaches the encoder,
    /// unless no context exists and none can be built from the settings; what
    /// the encoder then answers depends on its internal state.
    pub open spec fn submitted(
        &self,
        after: IncrementalEncoder,
        frame: RawFrame,
        r: Result<Option<EncodedPacket>, EncoderFault>,
    ) -> bool {
        &&& after.config() == self.config()
        &&& !self.fits(frame) <==> r == Err::<Option<EncodedPacket>, EncoderFault>(
            EncoderFault::MalformedFrame,
        )
        &&& !self.fits(frame) ==> after == *self
        &&& r == Err::<Option<EncodedPacket>, EncoderFault>(EncoderFault::InvalidSettings) <==> (
        self.fits(frame) && !self.ready() && !av1_usable(self.config()))
        &&& r is Ok ==> after.ready()
        &&& (r is Ok || r matches Err(EncoderFault::Codec(_))) ==> after.frames_sent()
            == self.frames_sent() + 1
        &&& !(r is Ok || r matches Err(EncoderFault::Codec(_))) ==> after.frames_sent()
            == self.frames_sent()
        &&& match r {
            Ok(Some(p)) => {
                &&& p.kind is Some
                &&& p.captured_ms == frame.captured_ms
                &&& p.mode == EncodingMode::Incremental
            },
            Ok(None) => true,
            Err(EncoderFault::MalformedFrame) => true,
            Err(EncoderFault::InvalidSettings) => !after.ready(),
            Err(EncoderFault::Codec(s)) => !after.ready() && !is_pending(s),
            Err(EncoderFault::ImageRejected) => false,
        }
    }

    /// Converts the frame to Y, Cb and Cr planes, feeds it to the encoder and
    /// retrieves at most one packet. A frame that does not fit is refused and
    /// changes nothing; settings the encoder cannot use are reported before a
    /// context is built; a fault of the encoder drops its context.
    pub fn submit(&mut self, frame: &RawFrame) -> (r: Result<Option<EncodedPacket>, EncoderFault>)
        ensures
            old(self).submitted(*final(self), *frame, r),
    {
        if !frame.is_well_formed() || frame.width == 0 || frame.width as usize
            != self.settings.width || frame.height as usize != self.settings.height {
            return Err(EncoderFault::MalformedFrame);
        }
        if self.context.is_none() {
            if self.settings.chroma != ChromaLayout::Cs444 {
                return Err(EncoderFault::InvalidSettings);
            }
            match av1_context(&self.settings) {
                Ok(c) => {
                    self.context = Some(c);
                },
                Err(_) => {
                    return Err(EncoderFault::InvalidSettings);
                },
            }
        }
        let (ys, cbs, crs) = rgb_to_planes(&frame.pixels);
        let planes = [ys, cbs, crs];
        let mut ctx = self.context.take().unwrap();
        let sent = av1_send(&mut ctx, &planes, self.settings.width);
        self.sent = Ghost(self.sent@ + 1);
        match classify_send(&sent) {
            SendVerdict::Fault(s) => {
                return Err(EncoderFault::Codec(s));
            },
            _ => {},
        }
        let received = av1_receive(&mut ctx);
        match interpret_receive(received, frame.captured_ms) {
            Ok(p) => {
                self.context = Some(ctx);
                Ok(p)
            },
            Err(s) => Err(EncoderFault::Codec(s)),
        }
    }
}

/// The encoding stage: one of the two modes, fixed at construction.
pub enum EncodingStage {
    FullFrame { quality: u8 },
    Incremental(IncrementalEncoder),
}

impl EncodingStage {
    pub open spec fn mode_of(&self) -> EncodingMode {
        match self {
            EncodingStage::FullFrame { .. } => EncodingMode::FullFrame,
            EncodingStage::Incremental(_) => EncodingMode::Incremental,
        }
    }

    /// JPEG compression of every frame at `quality` (1 to 100).
    pub fn full_frame(quality: u8) -> (r: EncodingStage)
        ensures
            r == (EncodingStage::FullFrame { quality }),
    {
        EncodingStage::FullFrame { quality }
    }

    /// AV1 compression with the given settings.
    pub fn incremental(settings: Av1Settings) -> (r: EncodingStage)
        ensures
            r.mode_of() == EncodingMode::Incremental,
            match r {
                EncodingStage::Incremental(e) => e.config() == settings && !e.ready(),
                _ => false,
            },
    {
        EncodingStage::Incremental(IncrementalEncoder::new(settings))
    }

    pub fn mode(&self) -> (r: EncodingMode)
        ensures
            r == self.mode_of(),
    {
        match self {
            EncodingStage::FullFrame { .. } => EncodingMode::FullFrame,
            EncodingStage::Incremental(_) => EncodingMode::Incremental,
        }
    }

    /// What a call of `submit` on `self` with `frame` may have done, leaving
    /// `after` and returning `r`.
    pub open spec fn submitted(
        &self,
        after: EncodingStage,
        frame: RawFrame,
        r: Result<Option<EncodedPacket>, EncoderFault>,
    ) -> bool {
        &&& after.mode_of() == self.mode_of()
        &&& match r {
            Ok(Some(p)) => p.captured_ms == frame.captured_ms && p.mode == self.mode_of(),
            _ => true,
        }
        &&& match *self {
            EncodingStage::FullFrame { quality } => {
                &&& after == *self
                &&& !frame.wf() <==> r == Err::<Option<EncodedPacket>, EncoderFault>(
                    EncoderFault::MalformedFrame,
                )
                &&& r == Err::<Option<EncodedPacket>, EncoderFault>(EncoderFault::ImageRejected)
                    <==> frame.wf() && !jpeg_size_ok(frame)
                &&& frame.wf() && jpeg_size_ok(frame) ==> r is Ok && r->Ok_0 is Some
                &&& match r {
                    Ok(Some(p)) => p.payload@ == jpeg_of(
                        frame.pixels@,
                        frame.width,
                        frame.height,
                        quality,
                    ) && p.kind is None,
                    Ok(None) => false,
                    Err(e) => e == EncoderFault::MalformedFrame || e == EncoderFault::ImageRejected,
                }
            },
            EncodingStage::Incremental(e) => match after {
                EncodingStage::Incremental(e2) => e.submitted(e2, frame, r),
                _ => false,
            },
        }
    }

    /// Encodes one admitted frame: a well-formed full frame within the JPEG
    /// size limit always yields its packet, an incremental one at most one.
    pub fn submit(&mut self, frame: &RawFrame) -> (r: Result<Option<EncodedPacket>, EncoderFault>)
        ensures
            old(self).submitted(*final(self), *frame, r),
    {
        match self {
            EncodingStage::FullFrame { quality } => {
                match encode_full_frame(frame, *quality) {
                    Ok(p) => Ok(Some(p)),
                    Err(e) => Err(e),
                }
            },
            EncodingStage::Incremental(e) => e.submit(frame),
        }
    }
}

} // verus!
