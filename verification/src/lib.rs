//! Verified building blocks of a typed distributed media pipeline:
//! frames and media buffers, the MQTT topic scheme, the pipeline builder,
//! the WebRTC media helpers (H.264 depacketizing, PCM and I420 packing)
//! and the decision logic of the runtime loops.

pub mod text;
pub mod ident;
pub mod message;
pub mod topics;
pub mod h264;
pub mod error;
pub mod frame;
pub mod codec;
pub mod media;
pub mod reconnect;
pub mod video;
pub mod audio;
pub mod element;
pub mod builder;
pub mod rtc;
pub mod signaling;
pub mod mqtt;
pub mod actor;
pub mod executor;
pub mod registry;
