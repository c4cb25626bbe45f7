//! What the canvas needs to know about a captured screenshot.
//!
//! The raster data itself stays with the capture glue and the rendering
//! backend; the canvas logic only ever reads the image's dimensions and how
//! it was captured, so that is what this type carries.

use vstd::prelude::*;

verus! {

/// Largest image dimension, in pixels, the editor works with.
pub const MAX_IMAGE_DIM: i64 = 1_000_000;

/// How a screenshot was obtained from the desktop portal.
#[derive(Debug, Clone, Copy, PartialEq, Eq, Structural)]
pub enum CaptureMode {
    Region,
    Window,
    Fullscreen,
}

/// A captured base image: its pixel dimensions and capture mode.
#[derive(Debug, Clone, Copy, PartialEq, Eq, Structural)]
pub struct Screenshot {
    pub width: i64,
    pub height: i64,
    pub capture_mode: CaptureMode,
}

/// A 32-bit big-endian value from four bytes.
pub open spec fn be32(a: u8, b: u8, c: u8, d: u8) -> int {
    a * 0x100_0000 + b * 0x1_0000 + c * 0x100 + d
}

/// Whether these bytes open a PNG file: the eight-byte PNG signature
/// followed by the length and type of the mandatory leading IHDR chunk,
/// whose first eight bytes are the image's dimensions.
pub open spec fn png_header_ok(h: Seq<u8>) -> bool {
    &&& h.len() >= 24
    &&& h[0] == 137u8
    &&& h[1] == 80u8
    &&& h[2] == 78u8
    &&& h[3] == 71u8
    &&& h[4] == 13u8
    &&& h[5] == 10u8
    &&& h[6] == 26u8
    &&& h[7] == 10u8
    &&& h[12] == 73u8
    &&& h[13] == 72u8
    &&& h[14] == 68u8
    &&& h[15] == 82u8
}

/// The pixel dimensions stored in a PNG file's opening bytes: `Some`
/// exactly when the signature and the IHDR chunk type are in place, and
/// then the big-endian width and height from the IHDR chunk.
pub fn png_dimensions(header: &Vec<u8>) -> (r: Option<(u32, u32)>)
    ensures
        (r is Some) == png_header_ok(header@),
        r matches Some(d) ==> d.0 == be32(header@[16], header@[17], header@[18], header@[19])
            && d.1 == be32(header@[20], header@[21], header@[22], header@[23]),
{
    if header.len() < 24 {
        return None;
    }
    if header[0] != 137 || header[1] != 80 || header[2] != 78 || header[3] != 71
        || header[4] != 13 || header[5] != 10 || header[6] != 26 || header[7] != 10 {
        return None;
    }
    if header[12] != 73 || header[13] != 72 || header[14] != 68 || header[15] != 82 {
        return None;
    }
    let width = (header[16] as u32) * 0x100_0000 + (header[17] as u32) * 0x1_0000 + (
    header[18] as u32) * 0x100 + (header[19] as u32);
    let height = (header[20] as u32) * 0x100_0000 + (header[21] as u32) * 0x1_0000 + (
    header[22] as u32) * 0x100 + (header[23] as u32);
    Some((width, height))
}

impl Screenshot {
    /// A usable screenshot has positive dimensions that fit the editor's
    /// working range.
    pub open spec fn wf(&self) -> bool {
        &&& 1 <= self.width <= MAX_IMAGE_DIM
        &&& 1 <= self.height <= MAX_IMAGE_DIM
    }

    pub fn new(width: i64, height: i64, capture_mode: CaptureMode) -> (s: Self)
        requires
            1 <= width <= MAX_IMAGE_DIM,
            1 <= height <= MAX_IMAGE_DIM,
        ensures
            s.wf(),
            s.width == width,
            s.height == height,
            s.capture_mode == capture_mode,
    {
        Screenshot { width, height, capture_mode }
    }

    /// Width of the base image in pixels.
    pub fn width(&self) -> (w: i64)
        ensures
            w == self.width,
    {
        self.width
    }

    /// Height of the base image in pixels.
    pub fn height(&self) -> (h: i64)
        ensures
            h == self.height,
    {
        self.height
    }
}

} // verus!
