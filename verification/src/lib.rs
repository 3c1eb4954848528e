//! Capability discovery and multi-backend dispatch for hardware video
//! encode/decode: data model, codec scoring, discovery caching, probe
//! candidate construction, and marshalling of native frame callbacks into
//! owned frame records.

pub mod common;
pub mod decode;
pub mod encode;
pub mod ffmpeg;
pub mod ffram;
pub mod vram;
