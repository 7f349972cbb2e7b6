//! A live video pipeline: demand-gated capture, age-based frame admission,
//! per-frame encoding and lossy fan-out to independently paced viewers.
//!
//! The decisions of every stage are plain functions and state machines with
//! contracts; the device, the transport and the threads around them are driven
//! by the program that embeds the library.

pub mod bus;
pub mod camera;
pub mod color;
pub mod controller;
pub mod demand;
pub mod detection;
pub mod encoding;
pub mod frame;
pub mod framer;
pub mod freshness;
pub mod pipeline;
pub mod session;

pub use bus::{BroadcastBus, Subscription};
pub use camera::{CameraAction, CameraLifecycle, CameraState};
pub use controller::{compute_h_bridge_input_signals, OculusControllerState, Vector2};
pub use demand::DemandCounter;
pub use detection::{DetectionImage, GenericImage, ImageDimension};
pub use encoding::{
    Av1Settings, ChromaLayout, EncodedPacket, EncoderFault, EncodingMode, EncodingStage, FrameKind,
    IncrementalEncoder,
};
pub use frame::RawFrame;
pub use framer::{Envelope, WireShape};
pub use freshness::FreshnessFilter;
pub use pipeline::FramePipeline;
pub use session::{SessionAction, SessionEvent, SessionState, ViewerSession};
