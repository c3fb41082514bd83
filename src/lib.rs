//! Conversion of locked, plane-addressed capture buffers into owned frames.
//!
//! The library holds the pure part of frame extraction: the byte-level
//! converters, the completeness gate over a sample's status metadata, and the
//! assembler that decides, step by step, when the pixel buffer is locked,
//! read, copied and unlocked, and which frame comes out.

pub mod convert;
pub mod frame;
pub mod status;
pub mod assembler;
