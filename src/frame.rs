//! Owned frames, one type per pixel format.

use vstd::prelude::*;

verus! {

/// Biplanar 4:2:0 frame: the two planes as copied, strides kept.
#[derive(Debug, Clone)]
pub struct YUVFrame {
    pub display_time: u64,
    pub width: i32,
    pub height: i32,
    pub luminance_bytes: Vec<u8>,
    pub luminance_stride: i32,
    pub chrominance_bytes: Vec<u8>,
    pub chrominance_stride: i32,
}

/// Packed B, G, R frame, `width * 3` bytes per row.
#[derive(Debug, Clone)]
pub struct BGRFrame {
    pub display_time: u64,
    pub width: i32,
    pub height: i32,
    pub data: Vec<u8>,
}

/// Packed B, G, R, A frame, `width * 4` bytes per row.
#[derive(Debug, Clone)]
pub struct BGRAFrame {
    pub display_time: u64,
    pub width: i32,
    pub height: i32,
    pub data: Vec<u8>,
}

/// Packed R, G, B frame, `width * 3` bytes per row.
#[derive(Debug, Clone)]
pub struct RGBFrame {
    pub display_time: u64,
    pub width: i32,
    pub height: i32,
    pub data: Vec<u8>,
}

/// A frame of any of the four formats.
#[derive(Debug, Clone)]
pub enum Frame {
    YUV(YUVFrame),
    BGR(BGRFrame),
    BGRA(BGRAFrame),
    RGB(RGBFrame),
}

} // verus!
