//! A small GPU compute engine: a fixed-capacity device array of 2D vectors,
//! a kernel that rotates every vector by an angle, and the host-side rules
//! around both: buffer sizes, the byte layout shared with the device, the
//! commands an engine records, and the handshake that brings the array back
//! into host memory.

pub mod device;
pub mod engine;
pub mod error;
pub mod layout;
pub mod plan;
pub mod readback;
pub mod sizing;

pub use engine::ComputeShader;
pub use error::EngineError;
pub use layout::{StorageData, UniformData, Vec2f};
