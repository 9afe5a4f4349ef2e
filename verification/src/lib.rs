//! Verified codec for the "RBMDL" render-block mesh container format: a
//! header with an endianness marker, a magic signature, a version triple and
//! a bounding box, followed by a counted list of typed render blocks, each
//! carrying a material, a vertex buffer in one of several physical layouts,
//! and a bounds-checked index buffer.
//!
//! Every multi-byte field is written under the byte order the marker names.
//! Floating-point fields are carried as raw IEEE 754 bit patterns, so a
//! decode followed by an encode reproduces them bit for bit.

pub mod blocks;
pub mod buffers;
pub mod container;
pub mod errors;
pub mod formats;
pub mod packed;
pub mod material;
pub mod math;
pub mod vertex;
pub mod wire;
