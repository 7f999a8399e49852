//! Verified core of a small collection of wgpu experiments: keyboard state,
//! arrow-key decisions, frame acquisition decisions, quad index data and the
//! integer letterbox viewport of the pixel-art scaler.

pub mod carre;
pub mod frame;
pub mod keys;
pub mod lumiere;
pub mod mesh;
pub mod plusieurs;
pub mod texture;
pub mod viewport;
